//! What each command does.
//!
//! A command is carried out against the store and ends in an `Outcome`: a
//! listing to show, a notice, or a question to the user. The tracker itself
//! neither prints nor reads: where a command needs an answer, its outcome
//! says so, and once the answer is there `log_picked` or `log_confirmed`
//! finishes the command.
//!
//! The contracts speak of the store's journal: they say which statements a
//! command hands to the store, in which order, and how its outcome follows
//! from what the store answered.
use crate::cli::{ArtistCommands, Cli, Commands, DateInput, LogCommands, ReleaseCommands};
use crate::clock::{
    date_text,
    day_exists,
    lemma_stamp_text_shape,
    local_now,
    local_offset_at,
    rfc3339_date,
    valid_date,
    valid_offset,
    writable_offset,
    Timestamp,
};
use crate::error::{fails_with, failure, Error};
use crate::model::{Artist, Log, Release};
use crate::repo::{
    add_artist,
    add_log,
    add_release,
    all_releases,
    artist_insertion_query,
    artists,
    artists_result,
    delete_log,
    every_artist_query,
    every_log_query,
    every_release_query,
    get_log,
    get_release,
    hold_releases,
    list_log,
    log_deletion_query,
    log_insertion_query,
    log_result,
    log_with_query,
    logs_result,
    release_insertion_query,
    releases_by_query,
    releases_for_artist,
    releases_named_query,
    releases_read,
    releases_result,
    releases_view,
};
use crate::store::{asked, Answer, CellView, Exchange, Store};
use crate::text::{
    chars_of,
    decimal_string,
    decimal_text,
    lemma_decimal_text_is_read,
    lemma_trimmed_line,
    lemma_trimmed_plain,
    numeral_between,
    numeral_value,
    numeral_within,
    trim_bounds,
    trimmed,
};
use vstd::prelude::*;
use vstd::string::StringExecFns;

verus! {

/// How a command ended, or what it needs to go on.
#[derive(Debug, PartialEq, Eq)]
pub enum Outcome {
    /// The command is carried out and there is nothing to show.
    Done,
    /// The artists to list.
    Artists(Vec<Artist>),
    /// The releases to list.
    Releases(Vec<Release>),
    /// The logs to list.
    Logs(Vec<Log>),
    /// Several releases have the name that was given. The user is to pick one
    /// of `candidates` by its number; `log_picked` then adds the log, with
    /// `date` as its moment.
    PickRelease { candidates: Vec<Release>, date: String },
    /// The log `log` has the id `id`. The user is to confirm that it shall be
    /// deleted; `log_confirmed` then deletes it or leaves it.
    ConfirmDelete { id: i32, log: Log },
    /// There is no log with the id that was given. This is no failure.
    NoLogFound,
    /// The log is deleted.
    Deleted,
    /// The user did not confirm, and the log is left as it was.
    Aborted,
}

/// The notice that goes with an outcome, for those that have one.
pub open spec fn notice_text(outcome: Outcome) -> Option<Seq<char>> {
    match outcome {
        Outcome::NoLogFound => Some("No log found"@),
        Outcome::Deleted => Some("Deleted log"@),
        Outcome::Aborted => Some("OK, aborting delete"@),
        _ => None,
    }
}

impl Outcome {
    /// The notice to show for this outcome, if it has one.
    pub fn notice(&self) -> (text: Option<&'static str>)
        ensures
            text is Some <==> notice_text(*self) is Some,
            text matches Some(t) ==> notice_text(*self) == Some(t@),
    {
        match self {
            Outcome::NoLogFound => Some("No log found"),
            Outcome::Deleted => Some("Deleted log"),
            Outcome::Aborted => Some("OK, aborting delete"),
            _ => None,
        }
    }
}

/// Whether an answer confirms: without the white space around it, it is the
/// letter y, small or capital.
pub open spec fn confirms(answer: Seq<char>) -> bool {
    trimmed(answer) == seq!['y'] || trimmed(answer) == seq!['Y']
}

/// Which of `count` candidates an answer picks, counted from 0: without the
/// white space around it the answer is a numeral from 1 to `count`, and picks
/// the candidate with that number. Any other answer picks none.
pub open spec fn picked(answer: Seq<char>, count: int) -> Option<int> {
    if numeral_between(trimmed(answer), 1, count) {
        Some(numeral_value(trimmed(answer)) - 1)
    } else {
        None
    }
}

/// The line that offers a candidate: its number, a full stop, a space, and
/// the artist.
pub open spec fn candidate_line(number: nat, artist: Seq<char>) -> Seq<char> {
    decimal_text(number) + seq!['.', ' '] + artist
}

/// The moment of a log, before it is known whether it can be kept: without a
/// date it is `now`; with a date it is that day at the time of day of `now`,
/// with the offset that local time has then.
pub open spec fn wanted(date: Option<DateInput>, now: Timestamp, seconds: i32) -> Timestamp {
    match date {
        None => now,
        Some(day) => Timestamp {
            year: day.year,
            month: day.month,
            day: day.day,
            hour: now.hour,
            minute: now.minute,
            second: now.second,
            offset: seconds,
        },
    }
}

/// The moment of a log, from what the user gave and what the clock says.
///
/// `offset` is what local time has on the day that the user gave at the time
/// of day of `now`: `None` where local time has no such moment, or has it
/// twice, which is a failure. Without a date, `offset` plays no part. The
/// moment is `wanted`, and it is refused where it cannot be kept: where its
/// year does not have four digits, or its offset would be written as a whole
/// day.
pub open spec fn moment_of(date: Option<DateInput>, now: Timestamp, offset: Option<i32>) -> Result<
    Timestamp,
    Seq<char>,
> {
    if date is Some && offset is None {
        Err("No such local time"@)
    } else {
        let at = wanted(
            date,
            now,
            match offset {
                Some(seconds) => seconds,
                None => 0,
            },
        );
        if !(0 <= at.year <= 9999) {
            Err("The year is an unrealistic value"@)
        } else if !writable_offset(at.offset as int) {
            Err("The offset is an unrealistic value"@)
        } else {
            Ok(at)
        }
    }
}

/// Computes `moment_of`.
pub fn moment(date: Option<DateInput>, now: Timestamp, offset: Option<i32>) -> (r: Result<
    Timestamp,
    Error,
>)
    ensures
        match moment_of(date, now, offset) {
            Ok(at) => r == Ok::<Timestamp, Error>(at),
            Err(message) => fails_with(r, message),
        },
{
    let at = match date {
        None => now,
        Some(day) => match offset {
            None => {
                return Err(failure("No such local time"));
            },
            Some(seconds) => Timestamp {
                year: day.year,
                month: day.month,
                day: day.day,
                hour: now.hour,
                minute: now.minute,
                second: now.second,
                offset: seconds,
            },
        },
    };
    if at.year < 0 || at.year > 9999 {
        Err(failure("The year is an unrealistic value"))
    } else if at.offset <= -86_370 || at.offset >= 86_370 {
        Err(failure("The offset is an unrealistic value"))
    } else {
        Ok(at)
    }
}

/// Whether `r` is what comes of a date when the clock says `now` and local
/// time has the offset `offset` at the wanted moment: `now` is a moment as
/// the clock gives it, there is an offset only for a day that was given and
/// that exists, and `r` is `moment_of` these.
pub open spec fn settled(
    date: Option<DateInput>,
    now: Timestamp,
    offset: Option<i32>,
    r: Result<Timestamp, Error>,
) -> bool {
    &&& now.is_real()
    &&& offset matches Some(seconds) ==> {
        &&& date matches Some(day) && valid_date(day.year as int, day.month as int, day.day as int)
        &&& valid_offset(seconds as int)
    }
    &&& match moment_of(date, now, offset) {
        Ok(at) => r == Ok::<Timestamp, Error>(at),
        Err(message) => fails_with(r, message),
    }
}

/// The messages with which the settling of a moment fails.
pub open spec fn clock_refusal(message: Seq<char>) -> bool {
    ||| message == "No such local time"@
    ||| message == "The year is an unrealistic value"@
    ||| message == "The offset is an unrealistic value"@
}

/// Whether a date was given that the calendar does not have, such as the
/// thirtieth of February.
pub open spec fn no_such_day(date: Option<DateInput>) -> bool {
    match date {
        Some(day) => !valid_date(day.year as int, day.month as int, day.day as int),
        None => false,
    }
}

/// The moment of a log that is added now: the current local time, or, where
/// the user gave a date, that day at the current time of day.
///
/// The day that is given must be one that the calendar has: there is no
/// moment on a day that does not exist, and none is made up from the days
/// around it. `clock::day_exists` tests a day.
///
/// The clock is read once, and where a date was given, the time zone is
/// asked once for the offset on that day at the time of day that the clock
/// gave. The result is `moment_of` what they answered: which moment it is
/// depends on them, and it is a failure where local time does not have the
/// wanted moment exactly once, or the moment cannot be kept. A moment that
/// does come back is civil, and lies on the day that was given, if one was.
pub fn get_date(date: Option<DateInput>) -> (r: Result<Timestamp, Error>)
    requires
        !no_such_day(date),
    ensures
        exists|now: Timestamp, offset: Option<i32>| settled(date, now, offset, r),
        r matches Ok(at) ==> {
            &&& at.is_civil()
            &&& date matches Some(day) ==> at.year == day.year && at.month == day.month && at.day
                == day.day
        },
        r matches Err(refusal) ==> clock_refusal(refusal.message@),
{
    let now = local_now();
    let offset = match date {
        Some(day) => local_offset_at(day.year, day.month, day.day, now.hour, now.minute, now.second),
        None => None,
    };
    let r = moment(date, now, offset);
    assert(settled(date, now, offset, r));
    r
}

/// Whether the user's answer to the question before a deletion confirms it.
pub fn is_confirmed(answer: &str) -> (yes: bool)
    ensures
        yes == confirms(answer@),
{
    let chars = chars_of(answer);
    let (from, to) = trim_bounds(&chars);
    let yes = to - from == 1 && (chars[from] == 'y' || chars[from] == 'Y');
    proof {
        let t = trimmed(answer@);
        if yes {
            assert(t =~= seq![chars@[from as int]]);
        } else if t.len() == 1 {
            assert(t[0] == chars@[from as int]);
            assert(seq!['y'][0] == 'y');
            assert(seq!['Y'][0] == 'Y');
        }
    }
    yes
}

/// The release that the user's answer picks among `releases`: the answer is
/// a number, counted from 1, of one of them. Any other answer is refused as an
/// invalid choice.
pub fn pick_release<'a>(releases: &'a [Release], answer: &str) -> (r: Result<&'a Release, Error>)
    ensures
        match picked(answer@, releases@.len() as int) {
            Some(i) => r == Ok::<&Release, Error>(&releases@[i]),
            None => fails_with(r, "Invalid choice"@),
        },
{
    let chars = chars_of(answer);
    let (from, to) = trim_bounds(&chars);
    match numeral_within(&chars, from, to, 1, releases.len() as u64) {
        Some(number) => Ok(&releases[(number - 1) as usize]),
        None => Err(failure("Invalid choice")),
    }
}

/// The number under which a candidate is offered picks that candidate: the
/// candidate at the place `i`, counted from 0, is offered with the number
/// `i + 1`, and an answer that is this number as `pick_prompt` writes it, with
/// or without a line feed after it, picks the place `i`.
pub proof fn lemma_offered_number_picks(count: int, i: int)
    requires
        0 <= i < count,
    ensures
        picked(decimal_text((i + 1) as nat), count) == Some(i),
        picked(decimal_text((i + 1) as nat).push('\n'), count) == Some(i),
{
    let number = decimal_text((i + 1) as nat);
    lemma_decimal_text_is_read((i + 1) as nat);
    assert(crate::text::is_digit(number[0]));
    assert(crate::text::is_digit(number.last()));
    lemma_trimmed_plain(number);
    lemma_trimmed_line(number);
}

/// What to show the user who is to pick among `releases`: one line for each,
/// with its number, counted from 1, and its artist, and a last line that asks
/// for the number.
pub fn pick_prompt(releases: &[Release]) -> (lines: Vec<String>)
    ensures
        lines@.len() == releases@.len() + 1,
        forall|i: int|
            0 <= i < releases@.len() ==> (#[trigger] lines@[i])@ == candidate_line(
                (i + 1) as nat,
                releases@[i].artist@,
            ),
        lines@[releases@.len() as int]@ == "Pick a release by the number:"@,
{
    let mut lines: Vec<String> = Vec::new();
    let mut i: usize = 0;
    while i < releases.len()
        invariant
            i <= releases@.len(),
            lines@.len() == i,
            forall|k: int|
                0 <= k < i ==> (#[trigger] lines@[k])@ == candidate_line(
                    (k + 1) as nat,
                    releases@[k].artist@,
                ),
        decreases releases@.len() - i,
    {
        let mut line = decimal_string(i + 1);
        line.append(". ");
        line.append(releases[i].artist.as_str());
        proof {
            reveal_strlit(". ");
            assert(". "@ =~= seq!['.', ' ']);
        }
        lines.push(line);
        i = i + 1;
    }
    lines.push("Pick a release by the number:".to_owned());
    lines
}

/// Which release a log is for, given the releases that have the name the
/// user gave: with none there is no such release; one is the one; among
/// several the user has to pick, and the answer here is `None`.
pub fn resolve<'a>(releases: &'a [Release]) -> (r: Result<Option<&'a Release>, Error>)
    ensures
        releases@.len() == 0 ==> fails_with(r, "No such release"@),
        releases@.len() == 1 ==> r == Ok::<Option<&Release>, Error>(Some(&releases@[0])),
        releases@.len() > 1 ==> r == Ok::<Option<&Release>, Error>(None),
{
    if releases.len() == 0 {
        Err(failure("No such release"))
    } else if releases.len() == 1 {
        Ok(Some(&releases[0]))
    } else {
        Ok(None)
    }
}

/// What a deletion does once the store has been asked for the log: without a
/// log there is nothing to delete, and with one the user is asked first.
pub fn before_delete(id: i32, found: Option<Log>) -> (outcome: Outcome)
    ensures
        match found {
            None => outcome == Outcome::NoLogFound,
            Some(log) => outcome == (Outcome::ConfirmDelete { id, log }),
        },
{
    match found {
        None => Outcome::NoLogFound,
        Some(log) => Outcome::ConfirmDelete { id, log },
    }
}

/// Whether `kept` can be the text of the moment of a log that was added for
/// `date`: a text of 25 characters that reads as RFC 3339 and begins with the
/// day that was given, if one was.
pub open spec fn keeps(kept: Seq<char>, date: Option<DateInput>) -> bool {
    &&& kept.len() == 25
    &&& rfc3339_date(kept) is Some
    &&& date matches Some(day) ==> kept.subrange(0, 10) == date_text(
        day.year as int,
        day.month as int,
        day.day as int,
    )
}

/// Whether `r` is what a statement that changes the store comes to for a
/// command: `done` where the store carried the statement out, and a failure
/// with the store's message where it refused.
pub open spec fn done_result(answer: Answer, r: Result<Outcome, Error>, done: Outcome) -> bool {
    match answer {
        Answer::Changed(_) => r == Ok::<Outcome, Error>(done),
        Answer::Refused(message) => fails_with(r, message),
        Answer::Rows(_) => false,
    }
}

/// What the adding of a log for the release named `name` does, from the
/// journal `before` to the journal `after`, with the result `r`.
///
/// A day that the calendar does not have is refused, and neither the clock
/// nor the store is asked. Where the moment cannot be settled, nothing is
/// asked of the store. Else the store is asked for the releases of that
/// name. No release is a
/// failure, and nothing more is asked. One release gets the log: the
/// insertion of its id and of the text of the moment is handed to the store,
/// and the command is done where the store carries it out. Several releases
/// go back to the user, with the text of the moment, and nothing more is
/// asked.
pub open spec fn log_added(
    name: Seq<char>,
    date: Option<DateInput>,
    before: Seq<Exchange>,
    after: Seq<Exchange>,
    r: Result<Outcome, Error>,
) -> bool {
    if no_such_day(date) {
        after == before && fails_with(r, "The day doesn't exist"@)
    } else if after.len() <= before.len() {
        after == before && r is Err && clock_refusal(r->Err_0.message@)
    } else {
        let first = after[before.len() as int];
        &&& after.len() <= before.len() + 2
        &&& after.take(before.len() as int) == before
        &&& first.query == releases_named_query(name)
        &&& match first.answer {
            Answer::Refused(message) => after.len() == before.len() + 1 && fails_with(r, message),
            Answer::Changed(_) => false,
            Answer::Rows(rows) => if !hold_releases(rows) {
                after.len() == before.len() + 1 && fails_with(
                    r,
                    "The store holds a release that cannot be read"@,
                )
            } else if rows.len() == 0 {
                after.len() == before.len() + 1 && fails_with(r, "No such release"@)
            } else if rows.len() == 1 {
                &&& after.len() == before.len() + 2
                &&& after.last().query.parameters.len() == 2
                &&& after.last().query.parameters[1] matches CellView::Text(kept)
                &&& keeps(kept, date)
                &&& after.last().query == log_insertion_query(releases_read(rows)[0].id, kept)
                &&& done_result(after.last().answer, r, Outcome::Done)
            } else {
                &&& after.len() == before.len() + 1
                &&& r matches Ok(Outcome::PickRelease { candidates, date: kept })
                &&& releases_view(candidates@) == releases_read(rows)
                &&& keeps(kept@, date)
            },
        }
    }
}

/// What a command on logs does, from the journal `before` to the journal
/// `after`, with the result `r`.
///
/// To add: see `log_added`. To list: the store is asked for all logs, and
/// the outcome is the logs that its rows hold. To delete: the store is asked
/// for the log with the id, and the outcome is `NoLogFound` where no row
/// came, and else the question to the user about the log that came; nothing
/// is deleted yet.
pub open spec fn log_done(
    command: LogCommands,
    before: Seq<Exchange>,
    after: Seq<Exchange>,
    r: Result<Outcome, Error>,
) -> bool {
    match command {
        LogCommands::Add { release, date } => log_added(release@, date, before, after, r),
        LogCommands::List => {
            &&& asked(before, after, every_log_query())
            &&& match r {
                Ok(Outcome::Logs(logs)) => logs_result(
                    after.last().answer,
                    Ok::<Vec<Log>, Error>(logs),
                ),
                Ok(_) => false,
                Err(refusal) => logs_result(after.last().answer, Err::<Vec<Log>, Error>(refusal)),
            }
        },
        LogCommands::Delete { id } => {
            &&& asked(before, after, log_with_query(id as int))
            &&& match r {
                Ok(Outcome::NoLogFound) => log_result(
                    after.last().answer,
                    Ok::<Option<Log>, Error>(None),
                ),
                Ok(Outcome::ConfirmDelete { id: about, log }) => about == id && log_result(
                    after.last().answer,
                    Ok::<Option<Log>, Error>(Some(log)),
                ),
                Ok(_) => false,
                Err(refusal) => log_result(
                    after.last().answer,
                    Err::<Option<Log>, Error>(refusal),
                ),
            }
        },
    }
}

/// Carries out a command on logs, as `log_done` says.
///
/// To add a log, the moment is settled first and then the release: no
/// release of that name is a failure, one gets the log, and several go back
/// to the user as `PickRelease`. To list gives `Logs`. To delete gives
/// `NoLogFound`, or asks the user with `ConfirmDelete`; nothing is deleted
/// here.
pub fn log(command: LogCommands, store: &mut Store) -> (r: Result<Outcome, Error>)
    ensures
        log_done(command, old(store)@, final(store)@, r),
{
    let ghost before = store@;
    match command {
        LogCommands::Add { release, date } => {
            let exists = match date {
                Some(day) => day_exists(day.year, day.month, day.day),
                None => true,
            };
            if !exists {
                return Err(failure("The day doesn't exist"));
            }
            let at = match get_date(date) {
                Ok(at) => at,
                Err(refusal) => {
                    return Err(refusal);
                },
            };
            let kept = at.to_rfc3339();
            proof {
                lemma_stamp_text_shape(at);
            }
            let releases = match get_release(store, release) {
                Ok(releases) => releases,
                Err(refusal) => {
                    assert(store@.take(before.len() as int) =~= before);
                    return Err(refusal);
                },
            };
            let ghost asked_once = store@;
            let ghost rows = asked_once.last().answer->Rows_0;
            assert(asked_once.take(before.len() as int) =~= before);
            assert(releases_view(releases@).len() == releases@.len());
            let only = match resolve(releases.as_slice()) {
                Ok(Some(release)) => Some(release.id),
                Ok(None) => None,
                Err(refusal) => {
                    return Err(refusal);
                },
            };
            match only {
                Some(id) => {
                    assert(releases_view(releases@)[0] == releases@[0]@);
                    let ghost kept_text = kept@;
                    let added = add_log(store, id, kept);
                    proof {
                        assert(store@.drop_last() == asked_once);
                        assert(store@.take(before.len() as int) =~= before);
                        assert(store@[before.len() as int] == asked_once.last());
                        assert(store@.last().query.parameters[1] == CellView::Text(kept_text));
                    }
                    match added {
                        Ok(()) => Ok(Outcome::Done),
                        Err(refusal) => Err(refusal),
                    }
                },
                None => Ok(Outcome::PickRelease { candidates: releases, date: kept }),
            }
        },
        LogCommands::List => {
            match list_log(store) {
                Ok(logs) => Ok(Outcome::Logs(logs)),
                Err(refusal) => Err(refusal),
            }
        },
        LogCommands::Delete { id } => {
            match get_log(store, id) {
                Ok(found) => Ok(before_delete(id, found)),
                Err(refusal) => Err(refusal),
            }
        },
    }
}

/// Finishes the adding of a log once the user has answered `PickRelease`:
/// the release that `answer` picks among `candidates` gets a log at the
/// moment `date`.
///
/// An answer that picks none is refused as an invalid choice, and nothing is
/// asked of the store. Else one statement is handed to the store: the
/// insertion of the id of the picked release and of `date`. The command is
/// done where the store carries it out.
pub fn log_picked(store: &mut Store, candidates: &[Release], date: String, answer: &str) -> (r:
    Result<Outcome, Error>)
    ensures
        match picked(answer@, candidates@.len() as int) {
            None => final(store)@ == old(store)@ && fails_with(r, "Invalid choice"@),
            Some(i) => {
                &&& asked(
                    old(store)@,
                    final(store)@,
                    log_insertion_query(candidates@[i].id as int, date@),
                )
                &&& done_result(final(store)@.last().answer, r, Outcome::Done)
            },
        },
{
    let id = match pick_release(candidates, answer) {
        Ok(release) => release.id,
        Err(refusal) => {
            return Err(refusal);
        },
    };
    match add_log(store, id, date) {
        Ok(()) => Ok(Outcome::Done),
        Err(refusal) => Err(refusal),
    }
}

/// Finishes a deletion once the user has answered `ConfirmDelete`.
///
/// An answer that does not confirm leaves the store alone: nothing is asked
/// of it, and the outcome is `Aborted`. After an answer that confirms, one
/// statement is handed to the store: the deletion of the log with the id
/// `id`. The outcome is `Deleted` where the store carries it out.
pub fn log_confirmed(store: &mut Store, id: i32, answer: &str) -> (r: Result<Outcome, Error>)
    ensures
        !confirms(answer@) ==> final(store)@ == old(store)@ && r == Ok::<Outcome, Error>(
            Outcome::Aborted,
        ),
        confirms(answer@) ==> {
            &&& asked(old(store)@, final(store)@, log_deletion_query(id as int))
            &&& done_result(final(store)@.last().answer, r, Outcome::Deleted)
        },
{
    if is_confirmed(answer) {
        match delete_log(store, id) {
            Ok(()) => Ok(Outcome::Deleted),
            Err(refusal) => Err(refusal),
        }
    } else {
        Ok(Outcome::Aborted)
    }
}

/// What a command on releases does, from the journal `before` to the journal
/// `after`, with the result `r`.
///
/// To add: the insertion of the name, the artist and the year is handed to
/// the store, and the command is done where the store carries it out. To
/// list: the store is asked for the releases of the artist, or for all where
/// no artist was given, and the outcome is the releases that its rows hold.
pub open spec fn release_done(
    command: ReleaseCommands,
    before: Seq<Exchange>,
    after: Seq<Exchange>,
    r: Result<Outcome, Error>,
) -> bool {
    match command {
        ReleaseCommands::Add { artist, name, year } => {
            &&& asked(before, after, release_insertion_query(name@, artist@, year as int))
            &&& done_result(after.last().answer, r, Outcome::Done)
        },
        ReleaseCommands::List { artist } => {
            &&& asked(
                before,
                after,
                match artist {
                    Some(of) => releases_by_query(of@),
                    None => every_release_query(),
                },
            )
            &&& match r {
                Ok(Outcome::Releases(releases)) => releases_result(
                    after.last().answer,
                    Ok::<Vec<Release>, Error>(releases),
                ),
                Ok(_) => false,
                Err(refusal) => releases_result(
                    after.last().answer,
                    Err::<Vec<Release>, Error>(refusal),
                ),
            }
        },
    }
}

/// Carries out a command on releases, as `release_done` says: adds one, or
/// lists those of one artist or all.
pub fn handle_release(command: ReleaseCommands, store: &mut Store) -> (r: Result<Outcome, Error>)
    ensures
        release_done(command, old(store)@, final(store)@, r),
{
    match command {
        ReleaseCommands::Add { artist, name, year } => {
            match add_release(store, Release { id: 0, name, artist, release_year: year }) {
                Ok(()) => Ok(Outcome::Done),
                Err(refusal) => Err(refusal),
            }
        },
        ReleaseCommands::List { artist } => {
            let listed = match artist {
                Some(artist) => releases_for_artist(store, artist),
                None => all_releases(store),
            };
            match listed {
                Ok(releases) => Ok(Outcome::Releases(releases)),
                Err(refusal) => Err(refusal),
            }
        },
    }
}

/// What a command on artists does, from the journal `before` to the journal
/// `after`, with the result `r`.
///
/// To add: the insertion of the name is handed to the store, and the command
/// is done where the store carries it out. To list: the store is asked for
/// all artists, and the outcome is the artists that its rows hold.
pub open spec fn artist_done(
    command: ArtistCommands,
    before: Seq<Exchange>,
    after: Seq<Exchange>,
    r: Result<Outcome, Error>,
) -> bool {
    match command {
        ArtistCommands::Add { name } => {
            &&& asked(before, after, artist_insertion_query(name@))
            &&& done_result(after.last().answer, r, Outcome::Done)
        },
        ArtistCommands::List => {
            &&& asked(before, after, every_artist_query())
            &&& match r {
                Ok(Outcome::Artists(artists)) => artists_result(
                    after.last().answer,
                    Ok::<Vec<Artist>, Error>(artists),
                ),
                Ok(_) => false,
                Err(refusal) => artists_result(
                    after.last().answer,
                    Err::<Vec<Artist>, Error>(refusal),
                ),
            }
        },
    }
}

/// Carries out a command on artists, as `artist_done` says: adds one, or
/// lists all.
pub fn handle_artist(command: ArtistCommands, store: &mut Store) -> (r: Result<Outcome, Error>)
    ensures
        artist_done(command, old(store)@, final(store)@, r),
{
    match command {
        ArtistCommands::Add { name } => {
            match add_artist(store, Artist { name }) {
                Ok(()) => Ok(Outcome::Done),
                Err(refusal) => Err(refusal),
            }
        },
        ArtistCommands::List => {
            match artists(store) {
                Ok(all) => Ok(Outcome::Artists(all)),
                Err(refusal) => Err(refusal),
            }
        },
    }
}

/// Carries out what the tracker was asked to do. Asked nothing, it asks
/// nothing of the store and is done.
pub fn handle_input(cli: Cli, store: &mut Store) -> (r: Result<Outcome, Error>)
    ensures
        match cli.command {
            None => final(store)@ == old(store)@ && r == Ok::<Outcome, Error>(Outcome::Done),
            Some(Commands::Artist { command }) => artist_done(
                command,
                old(store)@,
                final(store)@,
                r,
            ),
            Some(Commands::Release { command }) => release_done(
                command,
                old(store)@,
                final(store)@,
                r,
            ),
            Some(Commands::Log { command }) => log_done(command, old(store)@, final(store)@, r),
        },
{
    match cli.command {
        Some(Commands::Artist { command }) => handle_artist(command, store),
        Some(Commands::Release { command }) => handle_release(command, store),
        Some(Commands::Log { command }) => log(command, store),
        None => Ok(Outcome::Done),
    }
}

} // verus!
