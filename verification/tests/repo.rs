use musiklog::model::{Artist, Log, Release};
use musiklog::repo::{
    artist_insertion, artist_of, artists_of, every_artist, every_log, every_release, log_deletion,
    log_insertion, log_of, log_with, logs_of, release_insertion, release_of, releases_by,
    releases_named, releases_of, ADD_ARTIST, ADD_LOG, ADD_RELEASE, ALL_ARTISTS, ALL_LOGS,
    ALL_RELEASES, DELETE_LOG, LOG_BY_ID, RELEASES_BY_ARTIST, RELEASES_BY_NAME,
};
use musiklog::store::{Cell, Kind};

fn text(value: &str) -> Cell {
    Cell::Text(value.to_string())
}

fn geogaddi() -> Release {
    Release { id: 7, name: "Geogaddi".to_string(), artist: "Boards of Canada".to_string(), release_year: 2002 }
}

fn release_kinds() -> Vec<Kind> {
    vec![Kind::Integer, Kind::Text, Kind::Text, Kind::Integer]
}

fn log_kinds() -> Vec<Kind> {
    vec![Kind::Text, Kind::Text, Kind::Text]
}

#[test]
fn an_artist_is_added_by_name() {
    let query = artist_insertion(Artist { name: "Boards of Canada".to_string() });
    assert_eq!(query.sql, "INSERT INTO artist (name) VALUES (?1)");
    assert_eq!(query.sql, ADD_ARTIST);
    assert_eq!(query.parameters, vec![text("Boards of Canada")]);
    assert_eq!(query.columns, vec![]);
}

#[test]
fn a_release_is_added_without_its_id() {
    let query = release_insertion(geogaddi());
    assert_eq!(query.sql, "INSERT INTO release (name, artistname, year) VALUES (?1, ?2, ?3)");
    assert_eq!(query.sql, ADD_RELEASE);
    assert_eq!(query.parameters, vec![text("Geogaddi"), text("Boards of Canada"), Cell::Integer(2002)]);
    assert_eq!(query.columns, vec![]);
    let other = release_insertion(Release { id: -3, release_year: u32::MAX, ..geogaddi() });
    assert_eq!(other.parameters, vec![text("Geogaddi"), text("Boards of Canada"), Cell::Integer(4_294_967_295)]);
}

#[test]
fn a_log_is_added_with_release_and_date() {
    let query = log_insertion(7, "2025-01-12T21:04:09+01:00".to_string());
    assert_eq!(query.sql, "INSERT INTO log (release_id, date) VALUES (?1, ?2)");
    assert_eq!(query.sql, ADD_LOG);
    assert_eq!(query.parameters, vec![Cell::Integer(7), text("2025-01-12T21:04:09+01:00")]);
    assert_eq!(query.columns, vec![]);
}

#[test]
fn a_log_is_deleted_by_id() {
    let query = log_deletion(5);
    assert_eq!(query.sql, "DELETE FROM log WHERE id = ?1");
    assert_eq!(query.sql, DELETE_LOG);
    assert_eq!(query.parameters, vec![Cell::Integer(5)]);
    assert_eq!(query.columns, vec![]);
    assert_eq!(log_deletion(i32::MIN).parameters, vec![Cell::Integer(-2_147_483_648)]);
}

#[test]
fn listings_have_no_parameters() {
    let artists = every_artist();
    assert_eq!(artists.sql, "SELECT name FROM artist");
    assert_eq!(artists.sql, ALL_ARTISTS);
    assert_eq!(artists.parameters, vec![]);
    assert_eq!(artists.columns, vec![Kind::Text]);
    let releases = every_release();
    assert_eq!(releases.sql, "SELECT id, name, artistname, year FROM release");
    assert_eq!(releases.sql, ALL_RELEASES);
    assert_eq!(releases.parameters, vec![]);
    assert_eq!(releases.columns, release_kinds());
    let logs = every_log();
    assert_eq!(logs.sql, ALL_LOGS);
    assert!(logs.sql.ends_with("ORDER BY log.date"));
    assert_eq!(logs.parameters, vec![]);
    assert_eq!(logs.columns, log_kinds());
}

#[test]
fn releases_are_asked_for_by_name_or_by_artist() {
    let named = releases_named("Greatest Hits".to_string());
    assert_eq!(named.sql, "SELECT id, name, artistname, year FROM release WHERE name = ?1");
    assert_eq!(named.sql, RELEASES_BY_NAME);
    assert_eq!(named.parameters, vec![text("Greatest Hits")]);
    assert_eq!(named.columns, release_kinds());
    let by = releases_by("ABBA".to_string());
    assert_eq!(by.sql, "SELECT id, name, artistname, year FROM release WHERE artistname = ?1");
    assert_eq!(by.sql, RELEASES_BY_ARTIST);
    assert_eq!(by.parameters, vec![text("ABBA")]);
    assert_eq!(by.columns, release_kinds());
}

#[test]
fn a_log_is_asked_for_by_id() {
    let query = log_with(5);
    assert_eq!(query.sql, LOG_BY_ID);
    assert!(query.sql.ends_with("WHERE log.id = ?1"));
    assert_eq!(query.parameters, vec![Cell::Integer(5)]);
    assert_eq!(query.columns, log_kinds());
}

#[test]
fn a_row_is_read_as_an_artist() {
    assert_eq!(artist_of(&vec![text("ABBA")]).unwrap(), Artist { name: "ABBA".to_string() });
    assert_eq!(artist_of(&vec![text("")]).unwrap(), Artist { name: String::new() });
}

#[test]
fn what_is_no_artist_is_not_read() {
    let expected = "The store holds an artist that cannot be read";
    assert_eq!(artist_of(&vec![]).unwrap_err().message, expected);
    assert_eq!(artist_of(&vec![Cell::Integer(1)]).unwrap_err().message, expected);
    assert_eq!(artist_of(&vec![text("ABBA"), text("Queen")]).unwrap_err().message, expected);
}

#[test]
fn a_row_is_read_as_a_release() {
    let row = vec![Cell::Integer(7), text("Geogaddi"), text("Boards of Canada"), Cell::Integer(2002)];
    assert_eq!(release_of(&row).unwrap(), geogaddi());
    let ends = vec![Cell::Integer(-2_147_483_648), text(""), text(""), Cell::Integer(4_294_967_295)];
    assert_eq!(
        release_of(&ends).unwrap(),
        Release { id: i32::MIN, name: String::new(), artist: String::new(), release_year: u32::MAX }
    );
    let other = vec![Cell::Integer(2_147_483_647), text("a"), text("b"), Cell::Integer(0)];
    assert_eq!(
        release_of(&other).unwrap(),
        Release { id: i32::MAX, name: "a".to_string(), artist: "b".to_string(), release_year: 0 }
    );
}

#[test]
fn what_is_no_release_is_not_read() {
    let expected = "The store holds a release that cannot be read";
    let rows = vec![
        vec![],
        vec![Cell::Integer(7), text("Geogaddi"), text("Boards of Canada")],
        vec![Cell::Integer(7), text("Geogaddi"), text("Boards of Canada"), Cell::Integer(2002), Cell::Integer(1)],
        vec![text("7"), text("Geogaddi"), text("Boards of Canada"), Cell::Integer(2002)],
        vec![Cell::Integer(7), Cell::Integer(1), text("Boards of Canada"), Cell::Integer(2002)],
        vec![Cell::Integer(7), text("Geogaddi"), Cell::Integer(1), Cell::Integer(2002)],
        vec![Cell::Integer(7), text("Geogaddi"), text("Boards of Canada"), text("2002")],
        vec![Cell::Integer(2_147_483_648), text("Geogaddi"), text("Boards of Canada"), Cell::Integer(2002)],
        vec![Cell::Integer(-2_147_483_649), text("Geogaddi"), text("Boards of Canada"), Cell::Integer(2002)],
        vec![Cell::Integer(7), text("Geogaddi"), text("Boards of Canada"), Cell::Integer(-1)],
        vec![Cell::Integer(7), text("Geogaddi"), text("Boards of Canada"), Cell::Integer(4_294_967_296)],
    ];
    for row in rows {
        assert_eq!(release_of(&row).unwrap_err().message, expected, "{:?}", row);
    }
}

#[test]
fn a_row_is_read_as_a_log() {
    let row = vec![text("2025-01-12T21:04:09+01:00"), text("Geogaddi"), text("Boards of Canada")];
    let expected = Log {
        date: "2025-01-12T21:04:09+01:00".to_string(),
        release: "Geogaddi".to_string(),
        artist: "Boards of Canada".to_string(),
    };
    assert_eq!(log_of(&row).unwrap(), expected);
}

#[test]
fn what_is_no_log_is_not_read() {
    let expected = "The store holds a log that cannot be read";
    assert_eq!(log_of(&vec![]).unwrap_err().message, expected);
    assert_eq!(log_of(&vec![text("a"), text("b")]).unwrap_err().message, expected);
    assert_eq!(log_of(&vec![text("a"), text("b"), text("c"), text("d")]).unwrap_err().message, expected);
    assert_eq!(log_of(&vec![Cell::Integer(1), text("b"), text("c")]).unwrap_err().message, expected);
    assert_eq!(log_of(&vec![text("a"), Cell::Integer(1), text("c")]).unwrap_err().message, expected);
    assert_eq!(log_of(&vec![text("a"), text("b"), Cell::Integer(1)]).unwrap_err().message, expected);
}

#[test]
fn rows_are_read_in_their_order() {
    assert_eq!(artists_of(&vec![]).unwrap(), vec![]);
    assert_eq!(
        artists_of(&vec![vec![text("Queen")], vec![text("ABBA")]]).unwrap(),
        vec![Artist { name: "Queen".to_string() }, Artist { name: "ABBA".to_string() }]
    );
    let rows = vec![
        vec![Cell::Integer(2), text("Greatest Hits"), text("ABBA"), Cell::Integer(1975)],
        vec![Cell::Integer(1), text("Greatest Hits"), text("Queen"), Cell::Integer(1981)],
    ];
    let releases = releases_of(&rows).unwrap();
    assert_eq!(releases.iter().map(|r| r.id).collect::<Vec<i32>>(), vec![2, 1]);
    assert_eq!(releases[1].artist, "Queen");
    assert_eq!(releases_of(&vec![]).unwrap(), vec![]);
    let logs = logs_of(&vec![vec![text("b"), text("x"), text("y")], vec![text("a"), text("x"), text("y")]]).unwrap();
    assert_eq!(logs.iter().map(|l| l.date.as_str()).collect::<Vec<&str>>(), vec!["b", "a"]);
    assert_eq!(logs_of(&vec![]).unwrap(), vec![]);
}

#[test]
fn one_row_that_cannot_be_read_spoils_the_reading() {
    let artists = vec![vec![text("Queen")], vec![Cell::Integer(1)], vec![text("ABBA")]];
    assert_eq!(artists_of(&artists).unwrap_err().message, "The store holds an artist that cannot be read");
    let releases = vec![
        vec![Cell::Integer(1), text("Greatest Hits"), text("Queen"), Cell::Integer(1981)],
        vec![Cell::Integer(2), text("Greatest Hits"), text("ABBA"), Cell::Integer(-1975)],
    ];
    assert_eq!(releases_of(&releases).unwrap_err().message, "The store holds a release that cannot be read");
    let logs = vec![vec![text("a"), text("x")]];
    assert_eq!(logs_of(&logs).unwrap_err().message, "The store holds a log that cannot be read");
}
