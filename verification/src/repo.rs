//! Reading and writing artists, releases and logs in the store.
//!
//! Each operation is one statement. A function such as `release_insertion`
//! says which statement it is and with which values; a function such as
//! `releases_of` says how the rows of an answer are read. Between the two
//! stands the store, and what it answers is its own to decide: the
//! operations themselves hand on what came back, a listing as it was fetched
//! and a refusal as a failure with the store's own message.
//!
//! Every operation takes the store from its caller and leaves it open. Its
//! contract speaks of the store's journal: which statement the operation
//! hands over, and how its result follows from what the store answered.
use crate::error::{fails_with, failure, Error};
use crate::model::{Artist, ArtistView, Log, LogView, Release, ReleaseView};
use crate::store::{
    asked,
    cells_view,
    change_result,
    execute,
    fetch,
    rows_view,
    Answer,
    Cell,
    CellView,
    Kind,
    Query,
    QueryView,
    Store,
};
use vstd::prelude::*;

verus! {

/// Adds an artist.
pub const ADD_ARTIST: &'static str = "INSERT INTO artist (name) VALUES (?1)";

/// Adds a release; the store numbers it.
pub const ADD_RELEASE: &'static str =
    "INSERT INTO release (name, artistname, year) VALUES (?1, ?2, ?3)";

/// Adds a log.
pub const ADD_LOG: &'static str = "INSERT INTO log (release_id, date) VALUES (?1, ?2)";

/// Deletes the log with an id.
pub const DELETE_LOG: &'static str = "DELETE FROM log WHERE id = ?1";

/// All artists.
pub const ALL_ARTISTS: &'static str = "SELECT name FROM artist";

/// All releases.
pub const ALL_RELEASES: &'static str = "SELECT id, name, artistname, year FROM release";

/// The releases with a name.
pub const RELEASES_BY_NAME: &'static str =
    "SELECT id, name, artistname, year FROM release WHERE name = ?1";

/// The releases of an artist.
pub const RELEASES_BY_ARTIST: &'static str =
    "SELECT id, name, artistname, year FROM release WHERE artistname = ?1";

/// All logs with their releases and artists, in the order of their dates.
pub const ALL_LOGS: &'static str =
    "SELECT log.date, release.name, artist.name FROM log JOIN release ON log.release_id = release.id JOIN artist ON release.artistname = artist.name ORDER BY log.date";

/// The log with an id, with its release and artist.
pub const LOG_BY_ID: &'static str =
    "SELECT log.date, release.name, artist.name FROM log JOIN release ON log.release_id = release.id JOIN artist ON release.artistname = artist.name WHERE log.id = ?1";

/// The columns of a row that is read as an artist: the name.
pub open spec fn artist_columns() -> Seq<Kind> {
    seq![Kind::Text]
}

/// The columns of a row that is read as a release: id, name, artist, year.
pub open spec fn release_columns() -> Seq<Kind> {
    seq![Kind::Integer, Kind::Text, Kind::Text, Kind::Integer]
}

/// The columns of a row that is read as a log: date, release, artist.
pub open spec fn log_columns() -> Seq<Kind> {
    seq![Kind::Text, Kind::Text, Kind::Text]
}

/// The artist that a row holds, if it holds one.
pub open spec fn artist_read(row: Seq<CellView>) -> Option<ArtistView> {
    if row.len() == 1 && row[0] is Text {
        Some(ArtistView { name: row[0]->Text_0 })
    } else {
        None
    }
}

/// The release that a row holds, if it holds one: its id must be one that
/// an `i32` holds, and its year one that a `u32` holds.
pub open spec fn release_read(row: Seq<CellView>) -> Option<ReleaseView> {
    if row.len() == 4 && row[0] is Integer && row[1] is Text && row[2] is Text && row[3] is Integer
        && i32::MIN <= row[0]->Integer_0 <= i32::MAX && 0 <= row[3]->Integer_0 <= u32::MAX {
        Some(
            ReleaseView {
                id: row[0]->Integer_0,
                name: row[1]->Text_0,
                artist: row[2]->Text_0,
                release_year: row[3]->Integer_0,
            },
        )
    } else {
        None
    }
}

/// The log that a row holds, if it holds one.
pub open spec fn log_read(row: Seq<CellView>) -> Option<LogView> {
    if row.len() == 3 && row[0] is Text && row[1] is Text && row[2] is Text {
        Some(LogView { date: row[0]->Text_0, release: row[1]->Text_0, artist: row[2]->Text_0 })
    } else {
        None
    }
}

/// The statement that adds an artist with this name.
pub open spec fn artist_insertion_query(name: Seq<char>) -> QueryView {
    QueryView {
        sql: ADD_ARTIST@,
        parameters: seq![CellView::Text(name)],
        columns: Seq::<Kind>::empty(),
    }
}

/// The statement that adds a release with this name, artist and year.
pub open spec fn release_insertion_query(name: Seq<char>, artist: Seq<char>, year: int) -> QueryView {
    QueryView {
        sql: ADD_RELEASE@,
        parameters: seq![CellView::Text(name), CellView::Text(artist), CellView::Integer(year)],
        columns: Seq::<Kind>::empty(),
    }
}

/// The statement that adds a log of the release with this id at the moment
/// that `date` writes.
pub open spec fn log_insertion_query(release_id: int, date: Seq<char>) -> QueryView {
    QueryView {
        sql: ADD_LOG@,
        parameters: seq![CellView::Integer(release_id), CellView::Text(date)],
        columns: Seq::<Kind>::empty(),
    }
}

/// The statement that deletes the log with this id.
pub open spec fn log_deletion_query(id: int) -> QueryView {
    QueryView {
        sql: DELETE_LOG@,
        parameters: seq![CellView::Integer(id)],
        columns: Seq::<Kind>::empty(),
    }
}

/// The statement that asks for all artists.
pub open spec fn every_artist_query() -> QueryView {
    QueryView { sql: ALL_ARTISTS@, parameters: Seq::<CellView>::empty(), columns: artist_columns() }
}

/// The statement that asks for all releases.
pub open spec fn every_release_query() -> QueryView {
    QueryView {
        sql: ALL_RELEASES@,
        parameters: Seq::<CellView>::empty(),
        columns: release_columns(),
    }
}

/// The statement that asks for the releases with exactly this name.
pub open spec fn releases_named_query(name: Seq<char>) -> QueryView {
    QueryView {
        sql: RELEASES_BY_NAME@,
        parameters: seq![CellView::Text(name)],
        columns: release_columns(),
    }
}

/// The statement that asks for the releases of exactly this artist.
pub open spec fn releases_by_query(artist: Seq<char>) -> QueryView {
    QueryView {
        sql: RELEASES_BY_ARTIST@,
        parameters: seq![CellView::Text(artist)],
        columns: release_columns(),
    }
}

/// The statement that asks for all logs, oldest first.
pub open spec fn every_log_query() -> QueryView {
    QueryView { sql: ALL_LOGS@, parameters: Seq::<CellView>::empty(), columns: log_columns() }
}

/// The statement that asks for the log with this id.
pub open spec fn log_with_query(id: int) -> QueryView {
    QueryView {
        sql: LOG_BY_ID@,
        parameters: seq![CellView::Integer(id)],
        columns: log_columns(),
    }
}

/// What each of some artists holds, in order.
pub open spec fn artists_view(list: Seq<Artist>) -> Seq<ArtistView> {
    list.map_values(|artist: Artist| artist@)
}

/// What each of some releases holds, in order.
pub open spec fn releases_view(list: Seq<Release>) -> Seq<ReleaseView> {
    list.map_values(|release: Release| release@)
}

/// What each of some logs holds, in order.
pub open spec fn logs_view(list: Seq<Log>) -> Seq<LogView> {
    list.map_values(|log: Log| log@)
}

/// Whether every one of some rows holds an artist.
pub open spec fn hold_artists(rows: Seq<Seq<CellView>>) -> bool {
    forall|i: int| 0 <= i < rows.len() ==> artist_read(#[trigger] rows[i]) is Some
}

/// Whether every one of some rows holds a release.
pub open spec fn hold_releases(rows: Seq<Seq<CellView>>) -> bool {
    forall|i: int| 0 <= i < rows.len() ==> release_read(#[trigger] rows[i]) is Some
}

/// Whether every one of some rows holds a log.
pub open spec fn hold_logs(rows: Seq<Seq<CellView>>) -> bool {
    forall|i: int| 0 <= i < rows.len() ==> log_read(#[trigger] rows[i]) is Some
}

/// The artists that rows hold, in the order of the rows.
pub open spec fn artists_read(rows: Seq<Seq<CellView>>) -> Seq<ArtistView> {
    rows.map_values(|row: Seq<CellView>| artist_read(row)->Some_0)
}

/// The releases that rows hold, in the order of the rows.
pub open spec fn releases_read(rows: Seq<Seq<CellView>>) -> Seq<ReleaseView> {
    rows.map_values(|row: Seq<CellView>| release_read(row)->Some_0)
}

/// The logs that rows hold, in the order of the rows.
pub open spec fn logs_read(rows: Seq<Seq<CellView>>) -> Seq<LogView> {
    rows.map_values(|row: Seq<CellView>| log_read(row)->Some_0)
}

/// Whether `r` is the listing of artists that an answer of the store comes
/// to: the artists that the rows hold, in the order of the rows; a failure
/// where a row holds none; the store's own message where it refused.
pub open spec fn artists_result(answer: Answer, r: Result<Vec<Artist>, Error>) -> bool {
    match answer {
        Answer::Rows(rows) => if hold_artists(rows) {
            r is Ok && artists_view(r->Ok_0@) == artists_read(rows)
        } else {
            fails_with(r, "The store holds an artist that cannot be read"@)
        },
        Answer::Refused(message) => fails_with(r, message),
        Answer::Changed(_) => false,
    }
}

/// Whether `r` is the listing of releases that an answer of the store comes
/// to: the releases that the rows hold, in the order of the rows; a failure
/// where a row holds none; the store's own message where it refused.
pub open spec fn releases_result(answer: Answer, r: Result<Vec<Release>, Error>) -> bool {
    match answer {
        Answer::Rows(rows) => if hold_releases(rows) {
            r is Ok && releases_view(r->Ok_0@) == releases_read(rows)
        } else {
            fails_with(r, "The store holds a release that cannot be read"@)
        },
        Answer::Refused(message) => fails_with(r, message),
        Answer::Changed(_) => false,
    }
}

/// Whether `r` is the listing of logs that an answer of the store comes to:
/// the logs that the rows hold, in the order of the rows; a failure where a
/// row holds none; the store's own message where it refused.
pub open spec fn logs_result(answer: Answer, r: Result<Vec<Log>, Error>) -> bool {
    match answer {
        Answer::Rows(rows) => if hold_logs(rows) {
            r is Ok && logs_view(r->Ok_0@) == logs_read(rows)
        } else {
            fails_with(r, "The store holds a log that cannot be read"@)
        },
        Answer::Refused(message) => fails_with(r, message),
        Answer::Changed(_) => false,
    }
}

/// Whether `r` is the one log, or none, that an answer of the store comes
/// to: the log that the last row holds; none where no row came; a failure
/// where a row holds no log; the store's own message where it refused.
pub open spec fn log_result(answer: Answer, r: Result<Option<Log>, Error>) -> bool {
    match answer {
        Answer::Rows(rows) => if hold_logs(rows) {
            &&& r is Ok
            &&& rows.len() == 0 ==> r->Ok_0 is None
            &&& rows.len() > 0 ==> r->Ok_0 is Some && r->Ok_0->Some_0@ == log_read(
                rows.last(),
            )->Some_0
        } else {
            fails_with(r, "The store holds a log that cannot be read"@)
        },
        Answer::Refused(message) => fails_with(r, message),
        Answer::Changed(_) => false,
    }
}

/// The statement that adds an artist: the name is all that is handed over.
pub fn artist_insertion(artist: Artist) -> (q: Query)
    ensures
        q@ == (QueryView {
            sql: ADD_ARTIST@,
            parameters: seq![CellView::Text(artist.name@)],
            columns: Seq::<Kind>::empty(),
        }),
        q@ == artist_insertion_query(artist.name@),
{
    let mut parameters: Vec<Cell> = Vec::new();
    parameters.push(Cell::Text(artist.name));
    let q = Query { sql: ADD_ARTIST, parameters, columns: Vec::new() };
    assert(q@.parameters =~= seq![CellView::Text(artist.name@)]);
    q
}

/// The statement that adds a release: name, artist and year are handed
/// over, and the id is not, for the store numbers the release itself.
pub fn release_insertion(release: Release) -> (q: Query)
    ensures
        q@ == (QueryView {
            sql: ADD_RELEASE@,
            parameters: seq![
                CellView::Text(release.name@),
                CellView::Text(release.artist@),
                CellView::Integer(release.release_year as int),
            ],
            columns: Seq::<Kind>::empty(),
        }),
        q@ == release_insertion_query(release.name@, release.artist@, release.release_year as int),
{
    let mut parameters: Vec<Cell> = Vec::new();
    parameters.push(Cell::Text(release.name));
    parameters.push(Cell::Text(release.artist));
    parameters.push(Cell::Integer(release.release_year as i64));
    let q = Query { sql: ADD_RELEASE, parameters, columns: Vec::new() };
    assert(q@.parameters =~= seq![
        CellView::Text(release.name@),
        CellView::Text(release.artist@),
        CellView::Integer(release.release_year as int),
    ]);
    q
}

/// The statement that adds a log of the release with the id `release_id` at
/// the moment that `date` writes.
pub fn log_insertion(release_id: i32, date: String) -> (q: Query)
    ensures
        q@ == (QueryView {
            sql: ADD_LOG@,
            parameters: seq![CellView::Integer(release_id as int), CellView::Text(date@)],
            columns: Seq::<Kind>::empty(),
        }),
        q@ == log_insertion_query(release_id as int, date@),
{
    let mut parameters: Vec<Cell> = Vec::new();
    parameters.push(Cell::Integer(release_id as i64));
    parameters.push(Cell::Text(date));
    let q = Query { sql: ADD_LOG, parameters, columns: Vec::new() };
    assert(q@.parameters =~= seq![CellView::Integer(release_id as int), CellView::Text(date@)]);
    q
}

/// The statement that deletes the log with the id `id`.
pub fn log_deletion(id: i32) -> (q: Query)
    ensures
        q@ == (QueryView {
            sql: DELETE_LOG@,
            parameters: seq![CellView::Integer(id as int)],
            columns: Seq::<Kind>::empty(),
        }),
        q@ == log_deletion_query(id as int),
{
    let mut parameters: Vec<Cell> = Vec::new();
    parameters.push(Cell::Integer(id as i64));
    let q = Query { sql: DELETE_LOG, parameters, columns: Vec::new() };
    assert(q@.parameters =~= seq![CellView::Integer(id as int)]);
    q
}

/// The kinds of the columns of a release, as a vector.
fn release_kinds() -> (columns: Vec<Kind>)
    ensures
        columns@ == release_columns(),
{
    let mut columns: Vec<Kind> = Vec::new();
    columns.push(Kind::Integer);
    columns.push(Kind::Text);
    columns.push(Kind::Text);
    columns.push(Kind::Integer);
    assert(columns@ =~= release_columns());
    columns
}

/// The kinds of the columns of a log, as a vector.
fn log_kinds() -> (columns: Vec<Kind>)
    ensures
        columns@ == log_columns(),
{
    let mut columns: Vec<Kind> = Vec::new();
    columns.push(Kind::Text);
    columns.push(Kind::Text);
    columns.push(Kind::Text);
    assert(columns@ =~= log_columns());
    columns
}

/// The statement that asks for all artists.
pub fn every_artist() -> (q: Query)
    ensures
        q@ == (QueryView {
            sql: ALL_ARTISTS@,
            parameters: Seq::<CellView>::empty(),
            columns: artist_columns(),
        }),
        q@ == every_artist_query(),
{
    let mut columns: Vec<Kind> = Vec::new();
    columns.push(Kind::Text);
    let q = Query { sql: ALL_ARTISTS, parameters: Vec::new(), columns };
    assert(q@.parameters =~= Seq::<CellView>::empty());
    assert(q@.columns =~= artist_columns());
    q
}

/// The statement that asks for all releases.
pub fn every_release() -> (q: Query)
    ensures
        q@ == (QueryView {
            sql: ALL_RELEASES@,
            parameters: Seq::<CellView>::empty(),
            columns: release_columns(),
        }),
        q@ == every_release_query(),
{
    let q = Query { sql: ALL_RELEASES, parameters: Vec::new(), columns: release_kinds() };
    assert(q@.parameters =~= Seq::<CellView>::empty());
    q
}

/// The statement that asks for the releases whose name is exactly `name`.
pub fn releases_named(name: String) -> (q: Query)
    ensures
        q@ == (QueryView {
            sql: RELEASES_BY_NAME@,
            parameters: seq![CellView::Text(name@)],
            columns: release_columns(),
        }),
        q@ == releases_named_query(name@),
{
    let mut parameters: Vec<Cell> = Vec::new();
    parameters.push(Cell::Text(name));
    let q = Query { sql: RELEASES_BY_NAME, parameters, columns: release_kinds() };
    assert(q@.parameters =~= seq![CellView::Text(name@)]);
    q
}

/// The statement that asks for the releases whose artist is exactly
/// `artist`.
pub fn releases_by(artist: String) -> (q: Query)
    ensures
        q@ == (QueryView {
            sql: RELEASES_BY_ARTIST@,
            parameters: seq![CellView::Text(artist@)],
            columns: release_columns(),
        }),
        q@ == releases_by_query(artist@),
{
    let mut parameters: Vec<Cell> = Vec::new();
    parameters.push(Cell::Text(artist));
    let q = Query { sql: RELEASES_BY_ARTIST, parameters, columns: release_kinds() };
    assert(q@.parameters =~= seq![CellView::Text(artist@)]);
    q
}

/// The statement that asks for all logs, oldest first.
pub fn every_log() -> (q: Query)
    ensures
        q@ == (QueryView {
            sql: ALL_LOGS@,
            parameters: Seq::<CellView>::empty(),
            columns: log_columns(),
        }),
        q@ == every_log_query(),
{
    let q = Query { sql: ALL_LOGS, parameters: Vec::new(), columns: log_kinds() };
    assert(q@.parameters =~= Seq::<CellView>::empty());
    q
}

/// The statement that asks for the log with the id `id`.
pub fn log_with(id: i32) -> (q: Query)
    ensures
        q@ == (QueryView {
            sql: LOG_BY_ID@,
            parameters: seq![CellView::Integer(id as int)],
            columns: log_columns(),
        }),
        q@ == log_with_query(id as int),
{
    let mut parameters: Vec<Cell> = Vec::new();
    parameters.push(Cell::Integer(id as i64));
    let q = Query { sql: LOG_BY_ID, parameters, columns: log_kinds() };
    assert(q@.parameters =~= seq![CellView::Integer(id as int)]);
    q
}

/// Reads a row as an artist.
pub fn artist_of(row: &Vec<Cell>) -> (r: Result<Artist, Error>)
    ensures
        match artist_read(cells_view(row@)) {
            Some(artist) => r is Ok && r->Ok_0@ == artist,
            None => fails_with(r, "The store holds an artist that cannot be read"@),
        },
{
    if row.len() == 1 {
        if let Cell::Text(name) = &row[0] {
            return Ok(Artist { name: name.clone() });
        }
    }
    Err(failure("The store holds an artist that cannot be read"))
}

/// Reads a row as a release.
pub fn release_of(row: &Vec<Cell>) -> (r: Result<Release, Error>)
    ensures
        match release_read(cells_view(row@)) {
            Some(release) => r is Ok && r->Ok_0@ == release,
            None => fails_with(r, "The store holds a release that cannot be read"@),
        },
{
    if row.len() == 4 {
        if let Cell::Integer(id) = &row[0] {
            if let Cell::Text(name) = &row[1] {
                if let Cell::Text(artist) = &row[2] {
                    if let Cell::Integer(year) = &row[3] {
                        if -2_147_483_648 <= *id && *id <= 2_147_483_647 && 0 <= *year && *year
                            <= 4_294_967_295 {
                            return Ok(
                                Release {
                                    id: *id as i32,
                                    name: name.clone(),
                                    artist: artist.clone(),
                                    release_year: *year as u32,
                                },
                            );
                        }
                    }
                }
            }
        }
    }
    Err(failure("The store holds a release that cannot be read"))
}

/// Reads a row as a log.
pub fn log_of(row: &Vec<Cell>) -> (r: Result<Log, Error>)
    ensures
        match log_read(cells_view(row@)) {
            Some(log) => r is Ok && r->Ok_0@ == log,
            None => fails_with(r, "The store holds a log that cannot be read"@),
        },
{
    if row.len() == 3 {
        if let Cell::Text(date) = &row[0] {
            if let Cell::Text(release) = &row[1] {
                if let Cell::Text(artist) = &row[2] {
                    return Ok(
                        Log { date: date.clone(), release: release.clone(), artist: artist.clone() },
                    );
                }
            }
        }
    }
    Err(failure("The store holds a log that cannot be read"))
}

/// Reads rows as artists, in their order. One row that holds no artist makes
/// the whole reading a failure.
pub fn artists_of(rows: &Vec<Vec<Cell>>) -> (r: Result<Vec<Artist>, Error>)
    ensures
        (forall|i: int| 0 <= i < rows@.len() ==> artist_read(cells_view(#[trigger] rows@[i]@)) is Some)
            ==> {
            &&& r is Ok
            &&& r->Ok_0@.len() == rows@.len()
            &&& forall|i: int|
                #![trigger rows@[i]]
                #![trigger r->Ok_0@[i]]
                0 <= i < rows@.len() ==> artist_read(cells_view(rows@[i]@)) == Some(r->Ok_0@[i]@)
        },
        (exists|i: int| 0 <= i < rows@.len() && artist_read(cells_view(#[trigger] rows@[i]@)) is None)
            ==> fails_with(r, "The store holds an artist that cannot be read"@),
        artists_result(Answer::Rows(rows_view(rows@)), r),
{
    let mut found: Vec<Artist> = Vec::new();
    let mut i: usize = 0;
    while i < rows.len()
        invariant
            i <= rows@.len(),
            found@.len() == i,
            forall|k: int|
                #![trigger rows@[k]]
                #![trigger found@[k]]
                0 <= k < i ==> artist_read(cells_view(rows@[k]@)) == Some(found@[k]@),
        decreases rows@.len() - i,
    {
        let artist = match artist_of(&rows[i]) {
            Ok(artist) => artist,
            Err(unreadable) => {
                assert(artist_read(rows_view(rows@)[i as int]) is None);
                return Err(unreadable);
            },
        };
        found.push(artist);
        i = i + 1;
    }
    proof {
        let held = rows_view(rows@);
        assert forall|k: int| 0 <= k < held.len() implies artist_read(#[trigger] held[k]) is Some by {
            assert(artist_read(cells_view(rows@[k]@)) == Some(found@[k]@));
        }
        assert(artists_view(found@) =~= artists_read(held)) by {
            assert forall|k: int| 0 <= k < found@.len() implies artists_view(found@)[k] == artists_read(
                held,
            )[k] by {
                assert(artist_read(cells_view(rows@[k]@)) == Some(found@[k]@));
            }
        }
    }
    Ok(found)
}

/// Reads rows as releases, in their order. One row that holds no release
/// makes the whole reading a failure.
pub fn releases_of(rows: &Vec<Vec<Cell>>) -> (r: Result<Vec<Release>, Error>)
    ensures
        (forall|i: int|
            0 <= i < rows@.len() ==> release_read(cells_view(#[trigger] rows@[i]@)) is Some) ==> {
            &&& r is Ok
            &&& r->Ok_0@.len() == rows@.len()
            &&& forall|i: int|
                #![trigger rows@[i]]
                #![trigger r->Ok_0@[i]]
                0 <= i < rows@.len() ==> release_read(cells_view(rows@[i]@)) == Some(r->Ok_0@[i]@)
        },
        (exists|i: int|
            0 <= i < rows@.len() && release_read(cells_view(#[trigger] rows@[i]@)) is None)
            ==> fails_with(r, "The store holds a release that cannot be read"@),
        releases_result(Answer::Rows(rows_view(rows@)), r),
{
    let mut found: Vec<Release> = Vec::new();
    let mut i: usize = 0;
    while i < rows.len()
        invariant
            i <= rows@.len(),
            found@.len() == i,
            forall|k: int|
                #![trigger rows@[k]]
                #![trigger found@[k]]
                0 <= k < i ==> release_read(cells_view(rows@[k]@)) == Some(found@[k]@),
        decreases rows@.len() - i,
    {
        let release = match release_of(&rows[i]) {
            Ok(release) => release,
            Err(unreadable) => {
                assert(release_read(rows_view(rows@)[i as int]) is None);
                return Err(unreadable);
            },
        };
        found.push(release);
        i = i + 1;
    }
    proof {
        let held = rows_view(rows@);
        assert forall|k: int| 0 <= k < held.len() implies release_read(#[trigger] held[k]) is Some by {
            assert(release_read(cells_view(rows@[k]@)) == Some(found@[k]@));
        }
        assert(releases_view(found@) =~= releases_read(held)) by {
            assert forall|k: int| 0 <= k < found@.len() implies releases_view(found@)[k] == releases_read(
                held,
            )[k] by {
                assert(release_read(cells_view(rows@[k]@)) == Some(found@[k]@));
            }
        }
    }
    Ok(found)
}

/// Reads rows as logs, in their order. One row that holds no log makes the
/// whole reading a failure.
pub fn logs_of(rows: &Vec<Vec<Cell>>) -> (r: Result<Vec<Log>, Error>)
    ensures
        (forall|i: int| 0 <= i < rows@.len() ==> log_read(cells_view(#[trigger] rows@[i]@)) is Some)
            ==> {
            &&& r is Ok
            &&& r->Ok_0@.len() == rows@.len()
            &&& forall|i: int|
                #![trigger rows@[i]]
                #![trigger r->Ok_0@[i]]
                0 <= i < rows@.len() ==> log_read(cells_view(rows@[i]@)) == Some(r->Ok_0@[i]@)
        },
        (exists|i: int| 0 <= i < rows@.len() && log_read(cells_view(#[trigger] rows@[i]@)) is None)
            ==> fails_with(r, "The store holds a log that cannot be read"@),
        logs_result(Answer::Rows(rows_view(rows@)), r),
{
    let mut found: Vec<Log> = Vec::new();
    let mut i: usize = 0;
    while i < rows.len()
        invariant
            i <= rows@.len(),
            found@.len() == i,
            forall|k: int|
                #![trigger rows@[k]]
                #![trigger found@[k]]
                0 <= k < i ==> log_read(cells_view(rows@[k]@)) == Some(found@[k]@),
        decreases rows@.len() - i,
    {
        let log = match log_of(&rows[i]) {
            Ok(log) => log,
            Err(unreadable) => {
                assert(log_read(rows_view(rows@)[i as int]) is None);
                return Err(unreadable);
            },
        };
        found.push(log);
        i = i + 1;
    }
    proof {
        let held = rows_view(rows@);
        assert forall|k: int| 0 <= k < held.len() implies log_read(#[trigger] held[k]) is Some by {
            assert(log_read(cells_view(rows@[k]@)) == Some(found@[k]@));
        }
        assert(logs_view(found@) =~= logs_read(held)) by {
            assert forall|k: int| 0 <= k < found@.len() implies logs_view(found@)[k] == logs_read(
                held,
            )[k] by {
                assert(log_read(cells_view(rows@[k]@)) == Some(found@[k]@));
            }
        }
    }
    Ok(found)
}

/// Adds a release. The store gives it an id of its own, whatever
/// `release.id` holds, and refuses a release whose artist it does not know.
///
/// One statement is handed to the store: the insertion of the name, the
/// artist and the year. The release is added where the store carries the
/// statement out; where it refuses, the failure has the store's message.
pub fn add_release(store: &mut Store, release: Release) -> (r: Result<(), Error>)
    ensures
        asked(
            old(store)@,
            final(store)@,
            release_insertion_query(release.name@, release.artist@, release.release_year as int),
        ),
        change_result(final(store)@.last().answer, r),
{
    let query = release_insertion(release);
    match execute(store, &query) {
        Ok(_) => Ok(()),
        Err(refusal) => Err(refusal),
    }
}

/// The releases with exactly this name: none, one, or several where artists
/// share a name for their work.
///
/// One statement is handed to the store: the question for the releases of
/// that name. The result is the releases that the rows of the answer hold,
/// one for each row and in the order of the rows.
pub fn get_release(store: &mut Store, release: String) -> (r: Result<Vec<Release>, Error>)
    ensures
        asked(old(store)@, final(store)@, releases_named_query(release@)),
        releases_result(final(store)@.last().answer, r),
{
    let query = releases_named(release);
    match fetch(store, &query) {
        Ok(rows) => releases_of(&rows),
        Err(refusal) => Err(refusal),
    }
}

/// Adds an artist. The store refuses a name that it holds already.
///
/// One statement is handed to the store: the insertion of the name. The
/// artist is added where the store carries the statement out; where it
/// refuses, the failure has the store's message.
pub fn add_artist(store: &mut Store, artist: Artist) -> (r: Result<(), Error>)
    ensures
        asked(old(store)@, final(store)@, artist_insertion_query(artist.name@)),
        change_result(final(store)@.last().answer, r),
{
    let query = artist_insertion(artist);
    match execute(store, &query) {
        Ok(_) => Ok(()),
        Err(refusal) => Err(refusal),
    }
}

/// Adds a log of the release with the id `release_id`, at the moment that
/// `date` writes. The store refuses a log of a release that it does not
/// know.
///
/// One statement is handed to the store: the insertion of the id and the
/// date. The log is added where the store carries the statement out; where
/// it refuses, the failure has the store's message.
pub fn add_log(store: &mut Store, release_id: i32, date: String) -> (r: Result<(), Error>)
    ensures
        asked(old(store)@, final(store)@, log_insertion_query(release_id as int, date@)),
        change_result(final(store)@.last().answer, r),
{
    let query = log_insertion(release_id, date);
    match execute(store, &query) {
        Ok(_) => Ok(()),
        Err(refusal) => Err(refusal),
    }
}

/// All logs with their releases and artists, ordered by the text of their
/// dates, smallest first.
///
/// One statement is handed to the store: the question for all logs in the
/// order of their dates. The result is the logs that the rows of the answer
/// hold, one for each row and in the order of the rows.
pub fn list_log(store: &mut Store) -> (r: Result<Vec<Log>, Error>)
    ensures
        asked(old(store)@, final(store)@, every_log_query()),
        logs_result(final(store)@.last().answer, r),
{
    let query = every_log();
    match fetch(store, &query) {
        Ok(rows) => logs_of(&rows),
        Err(refusal) => Err(refusal),
    }
}

/// The log with this id, if the store has one.
///
/// One statement is handed to the store: the question for the log with
/// that id. The result is the log that the last row of the answer holds,
/// and none where the answer has no row.
pub fn get_log(store: &mut Store, id: i32) -> (r: Result<Option<Log>, Error>)
    ensures
        asked(old(store)@, final(store)@, log_with_query(id as int)),
        log_result(final(store)@.last().answer, r),
{
    let query = log_with(id);
    match fetch(store, &query) {
        Ok(rows) => match logs_of(&rows) {
            Ok(mut logs) => {
                proof {
                    let held = rows_view(rows@);
                    if held.len() > 0 {
                        assert(logs_view(logs@)[held.len() - 1] == logs_read(held)[held.len() - 1]);
                    }
                }
                Ok(logs.pop())
            },
            Err(unreadable) => Err(unreadable),
        },
        Err(refusal) => Err(refusal),
    }
}

/// Deletes the log with this id. Where the store has none, nothing changes
/// and nothing fails.
///
/// One statement is handed to the store: the deletion of the log with that
/// id. It is done where the store carries the statement out; where it
/// refuses, the failure has the store's message.
pub fn delete_log(store: &mut Store, id: i32) -> (r: Result<(), Error>)
    ensures
        asked(old(store)@, final(store)@, log_deletion_query(id as int)),
        change_result(final(store)@.last().answer, r),
{
    let query = log_deletion(id);
    match execute(store, &query) {
        Ok(_) => Ok(()),
        Err(refusal) => Err(refusal),
    }
}

/// The releases of the artist with exactly this name.
///
/// One statement is handed to the store: the question for the releases of
/// that artist. The result is the releases that the rows of the answer hold,
/// one for each row and in the order of the rows.
pub fn releases_for_artist(store: &mut Store, artist: String) -> (r: Result<Vec<Release>, Error>)
    ensures
        asked(old(store)@, final(store)@, releases_by_query(artist@)),
        releases_result(final(store)@.last().answer, r),
{
    let query = releases_by(artist);
    match fetch(store, &query) {
        Ok(rows) => releases_of(&rows),
        Err(refusal) => Err(refusal),
    }
}

/// All releases.
///
/// One statement is handed to the store: the question for all releases. The
/// result is the releases that the rows of the answer hold, one for each row
/// and in the order of the rows.
pub fn all_releases(store: &mut Store) -> (r: Result<Vec<Release>, Error>)
    ensures
        asked(old(store)@, final(store)@, every_release_query()),
        releases_result(final(store)@.last().answer, r),
{
    let query = every_release();
    match fetch(store, &query) {
        Ok(rows) => releases_of(&rows),
        Err(refusal) => Err(refusal),
    }
}

/// All artists.
///
/// One statement is handed to the store: the question for all artists. The
/// result is the artists that the rows of the answer hold, one for each row
/// and in the order of the rows.
pub fn artists(store: &mut Store) -> (r: Result<Vec<Artist>, Error>)
    ensures
        asked(old(store)@, final(store)@, every_artist_query()),
        artists_result(final(store)@.last().answer, r),
{
    let query = every_artist();
    match fetch(store, &query) {
        Ok(rows) => artists_of(&rows),
        Err(refusal) => Err(refusal),
    }
}

} // verus!
