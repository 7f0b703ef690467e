//! What the tracker keeps: artists, their releases, and logs of listening.
use crate::clock::{
    date_string,
    date_text,
    lemma_stamp_text_shape,
    read_rfc3339_date,
    rfc3339_date,
    stamp_text,
    Timestamp,
};
use vstd::prelude::*;

verus! {

/// An artist, known by a name that no other artist has.
#[derive(Clone, Debug, PartialEq, Eq)]
pub struct Artist {
    pub name: String,
}

/// What an `Artist` holds.
pub struct ArtistView {
    pub name: Seq<char>,
}

impl View for Artist {
    type V = ArtistView;

    open spec fn view(&self) -> ArtistView {
        ArtistView { name: self.name@ }
    }
}

/// A named work of one artist. The store gives each release its `id`; the
/// `id` of a release that is yet to be added means nothing.
#[derive(Clone, Debug, PartialEq, Eq)]
pub struct Release {
    pub id: i32,
    pub name: String,
    pub artist: String,
    pub release_year: u32,
}

/// What a `Release` holds.
pub struct ReleaseView {
    pub id: int,
    pub name: Seq<char>,
    pub artist: Seq<char>,
    pub release_year: int,
}

impl View for Release {
    type V = ReleaseView;

    open spec fn view(&self) -> ReleaseView {
        ReleaseView {
            id: self.id as int,
            name: self.name@,
            artist: self.artist@,
            release_year: self.release_year as int,
        }
    }
}

/// One listening, as a listing shows it: the release, its artist, and the
/// moment as the store keeps it, an RFC 3339 text.
#[derive(Clone, Debug, PartialEq, Eq)]
pub struct Log {
    pub date: String,
    pub release: String,
    pub artist: String,
}

/// What a `Log` holds.
pub struct LogView {
    pub date: Seq<char>,
    pub release: Seq<char>,
    pub artist: Seq<char>,
}

impl View for Log {
    type V = LogView;

    open spec fn view(&self) -> LogView {
        LogView { date: self.date@, release: self.release@, artist: self.artist@ }
    }
}

/// The date under which a log is shown: the calendar date of the moment that
/// it keeps, as `YYYY-MM-DD`. That is the first ten characters of what the log
/// keeps, whatever time of day and offset follow them.
///
/// `date` is what the store holds for a log: a text that reads as RFC 3339.
/// For texts of which that is not known there is `calendar_date`.
pub fn serialize(date: &str) -> (shown: String)
    requires
        rfc3339_date(date@) is Some,
    ensures
        date@.len() >= 10,
        shown@ == date@.subrange(0, 10),
        rfc3339_date(date@) matches Some(d) && shown@ == date_text(d.0, d.1, d.2),
{
    match read_rfc3339_date(date) {
        Some((year, month, day)) => date_string(year as u32, month, day),
        None => vstd::pervasive::unreached(),
    }
}

/// The date under which a log is shown, for any text: `None` where `date`
/// does not read as RFC 3339, else what `serialize` gives.
pub fn calendar_date(date: &str) -> (shown: Option<String>)
    ensures
        shown is Some <==> rfc3339_date(date@) is Some,
        shown matches Some(s) ==> {
            &&& date@.len() >= 10
            &&& s@ == date@.subrange(0, 10)
            &&& rfc3339_date(date@) matches Some(d) && s@ == date_text(d.0, d.1, d.2)
        },
{
    if read_rfc3339_date(date).is_some() {
        Some(serialize(date))
    } else {
        None
    }
}

/// A moment that is written for a log and then shown is shown under its own
/// calendar date, whatever its time of day and its offset: where `kept` is
/// what `Timestamp::to_rfc3339` writes for `moment`, and `shown` is what
/// `serialize` makes of `kept`, `shown` is the date of `moment` as
/// `YYYY-MM-DD`.
pub proof fn lemma_written_date_is_shown(moment: Timestamp, kept: Seq<char>, shown: Seq<char>)
    requires
        kept == stamp_text(moment),
        shown == kept.subrange(0, 10),
    ensures
        shown == date_text(moment.year as int, moment.month as int, moment.day as int),
{
    lemma_stamp_text_shape(moment);
}

} // verus!
