//! Getting the store ready: where its file lies, and the tables it needs.
use crate::error::{fails_with, failure, Error};
use crate::store::{execute, Answer, CellView, Exchange, Kind, Query, QueryView, Store};
use crate::text::chars_of;
use vstd::prelude::*;
use vstd::string::StringExecFns;

verus! {

/// Has the store hold references between tables to their word.
pub const ENFORCE_REFERENCES: &'static str = "PRAGMA foreign_keys = ON";

/// The table of artists: a name each, and no name twice.
pub const CREATE_ARTIST: &'static str = "CREATE TABLE IF NOT EXISTS artist(name TEXT PRIMARY KEY)";

/// The table of releases: each of an artist that the store knows.
pub const CREATE_RELEASE: &'static str =
    "CREATE TABLE IF NOT EXISTS release(id INTEGER PRIMARY KEY AUTOINCREMENT, name TEXT NOT NULL, artistname TEXT NOT NULL REFERENCES artist(name), year INTEGER NOT NULL)";

/// The table of logs: each of a release that the store knows.
pub const CREATE_LOG: &'static str =
    "CREATE TABLE IF NOT EXISTS log(id INTEGER PRIMARY KEY AUTOINCREMENT, release_id INTEGER NOT NULL REFERENCES release(id), date TEXT)";

/// `relative` below the directory `base`: the two joined by one slash, which
/// is left out where `base` is empty or ends with a slash already.
pub open spec fn joined(base: Seq<char>, relative: Seq<char>) -> Seq<char> {
    if base.len() == 0 || base.last() == '/' {
        base + relative
    } else {
        base + seq!['/'] + relative
    }
}

/// A statement without parameters that answers with no rows.
pub open spec fn plain(sql: Seq<char>) -> QueryView {
    QueryView { sql, parameters: Seq::<CellView>::empty(), columns: Seq::<Kind>::empty() }
}

/// Where the store's file lies: at `chosen`, the path that the user has set
/// in `MLOG_DB_PATH`, if there is one; else at `.config/mlog/mlog.db` below
/// the user's home directory `home`. With neither there is no place for it.
pub fn get_db_path(chosen: Option<String>, home: Option<String>) -> (r: Result<String, Error>)
    ensures
        match (chosen, home) {
            (Some(path), _) => r == Ok::<String, Error>(path),
            (None, Some(dir)) => r is Ok && r->Ok_0@ == joined(dir@, ".config/mlog/mlog.db"@),
            (None, None) => fails_with(r, "Can't get home directory"@),
        },
{
    match chosen {
        Some(path) => Ok(path),
        None => match home {
            Some(dir) => {
                let chars = chars_of(dir.as_str());
                let n = chars.len();
                let mut path = dir;
                if n > 0 && chars[n - 1] != '/' {
                    path.append("/");
                    proof {
                        reveal_strlit("/");
                        assert("/"@ =~= seq!['/']);
                    }
                }
                path.append(".config/mlog/mlog.db");
                Ok(path)
            },
            None => Err(failure("Can't get home directory")),
        },
    }
}

/// Makes a statement without parameters that answers with no rows.
fn statement(sql: &'static str) -> (q: Query)
    ensures
        q@ == plain(sql@),
{
    let q = Query { sql, parameters: Vec::new(), columns: Vec::new() };
    assert(q@.parameters =~= Seq::<CellView>::empty());
    q
}

/// The statements that get the store ready, in the order in which they are
/// issued: references are switched on, then the tables of artists, releases
/// and logs are created where they do not exist yet.
pub open spec fn schema_queries() -> Seq<QueryView> {
    seq![
        plain(ENFORCE_REFERENCES@),
        plain(CREATE_ARTIST@),
        plain(CREATE_RELEASE@),
        plain(CREATE_LOG@),
    ]
}

/// Whether the journal `after` is the journal `before` with the statements
/// `queries` handed to the store one after the other, up to the first that
/// the store refused, and `r` is what came of it: done where the store
/// carried out all of them, and else a failure with the message of the
/// refusal.
pub open spec fn issued(
    before: Seq<Exchange>,
    after: Seq<Exchange>,
    queries: Seq<QueryView>,
    r: Result<(), Error>,
) -> bool {
    &&& before.len() < after.len() <= before.len() + queries.len()
    &&& after.take(before.len() as int) == before
    &&& forall|j: int|
        before.len() <= j < after.len() ==> (#[trigger] after[j]).query == queries[j
            - before.len()]
    &&& forall|j: int| before.len() <= j < after.len() - 1 ==> (#[trigger] after[j]).answer is Changed
    &&& match after.last().answer {
        Answer::Changed(_) => after.len() == before.len() + queries.len() && r is Ok,
        Answer::Refused(message) => fails_with(r, message),
        Answer::Rows(_) => false,
    }
}

/// The statements of `schema_queries`, to be handed to the store.
pub fn schema() -> (statements: Vec<Query>)
    ensures
        statements@.len() == 4,
        statements@[0]@ == plain(ENFORCE_REFERENCES@),
        statements@[1]@ == plain(CREATE_ARTIST@),
        statements@[2]@ == plain(CREATE_RELEASE@),
        statements@[3]@ == plain(CREATE_LOG@),
        statements@.len() == schema_queries().len(),
        forall|k: int| 0 <= k < 4 ==> (#[trigger] statements@[k])@ == schema_queries()[k],
{
    let mut statements: Vec<Query> = Vec::new();
    statements.push(statement(ENFORCE_REFERENCES));
    statements.push(statement(CREATE_ARTIST));
    statements.push(statement(CREATE_RELEASE));
    statements.push(statement(CREATE_LOG));
    statements
}

/// Gets the store ready: references are switched on, and the tables are
/// created where they do not exist yet. Running it again changes nothing.
///
/// The statements of the schema are handed to the store in their order,
/// until the store refuses one or all are carried out. It is done where all
/// are carried out; a refusal is a failure with the store's message, and the
/// statements after it are not issued.
pub fn upsert_tables(store: &mut Store) -> (r: Result<(), Error>)
    ensures
        issued(old(store)@, final(store)@, schema_queries(), r),
{
    let statements = schema();
    let ghost before = store@;
    let mut i: usize = 0;
    while i < statements.len()
        invariant
            i <= statements@.len() == 4,
            forall|k: int| 0 <= k < 4 ==> (#[trigger] statements@[k])@ == schema_queries()[k],
            schema_queries().len() == 4,
            before == old(store)@,
            store@.len() == before.len() + i,
            store@.take(before.len() as int) == before,
            forall|j: int|
                before.len() <= j < store@.len() ==> (#[trigger] store@[j]).query
                    == schema_queries()[j - before.len()],
            forall|j: int| before.len() <= j < store@.len() ==> (#[trigger] store@[j]).answer is Changed,
        decreases statements@.len() - i,
    {
        let ghost earlier = store@;
        let answer = execute(store, &statements[i]);
        proof {
            assert(store@.drop_last() == earlier);
            assert(store@.take(before.len() as int) =~= before) by {
                assert forall|j: int| 0 <= j < before.len() implies store@[j] == before[j] by {
                    assert(store@.drop_last()[j] == earlier[j]);
                    assert(earlier.take(before.len() as int)[j] == earlier[j]);
                }
            }
            assert forall|j: int| before.len() <= j < store@.len() - 1 implies (
            #[trigger] store@[j]).answer is Changed && store@[j].query == schema_queries()[j
                - before.len()] by {
                assert(store@.drop_last()[j] == earlier[j]);
            }
            assert(store@[store@.len() - 1] == store@.last());
            assert(store@.last().query == schema_queries()[i as int]);
            assert forall|j: int| before.len() <= j < store@.len() implies (
            #[trigger] store@[j]).query == schema_queries()[j - before.len()] by {
                if j < store@.len() - 1 {
                    assert(store@[j].answer is Changed);
                }
            }
        }
        match answer {
            Ok(_) => {},
            Err(refusal) => {
                return Err(refusal);
            },
        }
        i = i + 1;
    }
    Ok(())
}

} // verus!
