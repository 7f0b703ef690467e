//! The commands that the tracker understands, and the calendar date that a
//! user may give for a log.
use crate::error::{fails_with, failure, Error};
use crate::text::{chars_of, numeral_between, numeral_value, numeral_within};
use vstd::prelude::*;

verus! {

/// A calendar date as the user typed it: a year from 1970 to 3000, a month from
/// 1 to 12 and a day from 1 to 31. The day is not held against the length of
/// the month, so the thirtieth of February is a `DateInput`.
#[derive(Clone, Copy, Debug, PartialEq, Eq, Structural)]
pub struct DateInput {
    pub year: i32,
    pub month: u32,
    pub day: u32,
}

impl DateInput {
    /// Whether year, month and day lie in the ranges that a date on the
    /// command line has. Every date that `from_str` reads does.
    pub open spec fn in_range(self) -> bool {
        1970 <= self.year <= 3000 && 1 <= self.month <= 12 && 1 <= self.day <= 31
    }
}

/// What the tracker was asked to do.
#[derive(Debug)]
pub struct Cli {
    pub command: Option<Commands>,
}

/// The three groups of commands.
#[allow(inconsistent_fields)]
#[derive(Debug)]
pub enum Commands {
    Artist { command: ArtistCommands },
    Release { command: ReleaseCommands },
    Log { command: LogCommands },
}

/// Commands on releases.
#[allow(inconsistent_fields)]
#[derive(Debug)]
pub enum ReleaseCommands {
    /// Registers a release of an artist who is registered already.
    Add { artist: String, name: String, year: u32 },
    /// Lists the releases, all of them or those of one artist.
    List { artist: Option<String> },
}

/// Commands on artists.
#[derive(Debug)]
pub enum ArtistCommands {
    /// Registers an artist under a name that no other artist has.
    Add { name: String },
    /// Lists all artists.
    List,
}

/// Commands on logs.
#[derive(Debug)]
pub enum LogCommands {
    /// Records that a release was listened to, now or on the given date.
    Add { release: String, date: Option<DateInput> },
    /// Lists all logs, oldest first.
    List,
    /// Deletes one log, once the user has confirmed it.
    Delete { id: i32 },
}

/// Why a text is no date.
pub enum DateFault {
    /// It does not consist of three parts separated by hyphens.
    Format,
    /// Its first part is no number from 1970 to 3000.
    Year,
    /// Its second part is no number from 1 to 12.
    Month,
    /// Its third part is no number from 1 to 31.
    Day,
}

/// Where the first hyphen of `s` stands; the length of `s` where it has none.
pub open spec fn first_dash(s: Seq<char>) -> nat
    decreases s.len(),
{
    if s.len() == 0 || s[0] == '-' {
        0
    } else {
        1 + first_dash(s.drop_first())
    }
}

/// The parts of `s` that its hyphens separate, in order. A text without a
/// hyphen is its own single part; a part may be empty.
pub open spec fn fields(s: Seq<char>) -> Seq<Seq<char>>
    decreases s.len(),
{
    let k = first_dash(s) as int;
    if k >= s.len() {
        seq![s]
    } else {
        seq![s.subrange(0, k)] + fields(s.subrange(k + 1, s.len() as int))
    }
}

/// The first reason, if any, for which `input` is no date: the number of parts
/// is looked at first, then the year, the month and the day.
pub open spec fn date_fault(input: Seq<char>) -> Option<DateFault> {
    let parts = fields(input);
    if parts.len() != 3 {
        Some(DateFault::Format)
    } else if !numeral_between(parts[0], 1970, 3000) {
        Some(DateFault::Year)
    } else if !numeral_between(parts[1], 1, 12) {
        Some(DateFault::Month)
    } else if !numeral_between(parts[2], 1, 31) {
        Some(DateFault::Day)
    } else {
        None
    }
}

/// The date that `input` writes, where `date_fault` finds nothing wrong.
pub open spec fn date_of(input: Seq<char>) -> DateInput {
    let parts = fields(input);
    DateInput {
        year: numeral_value(parts[0]) as i32,
        month: numeral_value(parts[1]) as u32,
        day: numeral_value(parts[2]) as u32,
    }
}

/// The message that reports a fault.
pub open spec fn fault_message(fault: DateFault) -> Seq<char> {
    match fault {
        DateFault::Format => "Invalid date format. Should be like 2025-01-12"@,
        DateFault::Year => "The year is an unrealistic value"@,
        DateFault::Month => "The month doesn't exist"@,
        DateFault::Day => "The day doesn't exist"@,
    }
}

/// A text is a date exactly where it has three parts, of which the first is a
/// numeral from 1970 to 3000, the second one from 1 to 12 and the third one
/// from 1 to 31. Every other text has a fault: one with fewer or more parts,
/// and one with a year, a month or a day that is no number or out of range.
pub proof fn lemma_faults(input: Seq<char>)
    ensures
        date_fault(input) is None <==> {
            &&& fields(input).len() == 3
            &&& numeral_between(fields(input)[0], 1970, 3000)
            &&& numeral_between(fields(input)[1], 1, 12)
            &&& numeral_between(fields(input)[2], 1, 31)
        },
        fields(input).len() != 3 ==> date_fault(input) == Some(DateFault::Format),
{
}

/// `first_dash` is the one position before which no hyphen stands and at
/// which one does, or the text ends.
pub proof fn lemma_first_dash(s: Seq<char>, k: int)
    requires
        0 <= k <= s.len(),
        forall|i: int| 0 <= i < k ==> #[trigger] s[i] != '-',
        k == s.len() || s[k] == '-',
    ensures
        first_dash(s) == k,
    decreases k,
{
    if k > 0 {
        let rest = s.drop_first();
        assert forall|i: int| 0 <= i < k - 1 implies #[trigger] rest[i] != '-' by {
            assert(rest[i] == s[i + 1]);
        }
        lemma_first_dash(rest, k - 1);
    }
}

/// Every text has at least one part.
pub proof fn lemma_fields_nonempty(s: Seq<char>)
    ensures
        fields(s).len() >= 1,
    decreases s.len(),
{
    let k = first_dash(s) as int;
    if k < s.len() {
        lemma_fields_nonempty(s.subrange(k + 1, s.len() as int));
    }
}

/// A numeral holds no hyphen.
pub proof fn lemma_numeral_has_no_dash(s: Seq<char>)
    requires
        crate::text::is_numeral(s),
    ensures
        forall|i: int| 0 <= i < s.len() ==> #[trigger] s[i] != '-',
{
    let digits = crate::text::unsigned_part(s);
    assert forall|i: int| 0 <= i < s.len() implies #[trigger] s[i] != '-' by {
        if digits.len() == s.len() {
            assert(crate::text::is_digit(digits[i]));
        } else if i > 0 {
            assert(digits[i - 1] == s[i]);
            assert(crate::text::is_digit(digits[i - 1]));
        }
    }
}

/// Three numerals in range, joined by hyphens, are read as the date that they
/// write: for every year from 1970 to 3000, month from 1 to 12 and day from 1
/// to 31, however each is written as a numeral, `date_fault` finds nothing
/// wrong and `date_of` gives these three numbers.
pub proof fn lemma_valid_date_is_read(year: Seq<char>, month: Seq<char>, day: Seq<char>)
    requires
        numeral_between(year, 1970, 3000),
        numeral_between(month, 1, 12),
        numeral_between(day, 1, 31),
    ensures
        fields(year + seq!['-'] + month + seq!['-'] + day) == seq![year, month, day],
        date_fault(year + seq!['-'] + month + seq!['-'] + day) is None,
        date_of(year + seq!['-'] + month + seq!['-'] + day) == (DateInput {
            year: numeral_value(year) as i32,
            month: numeral_value(month) as u32,
            day: numeral_value(day) as u32,
        }),
{
    let whole = year + seq!['-'] + month + seq!['-'] + day;
    let tail = month + seq!['-'] + day;
    lemma_numeral_has_no_dash(year);
    lemma_numeral_has_no_dash(month);
    lemma_numeral_has_no_dash(day);
    lemma_first_dash(whole, year.len() as int);
    assert(whole.subrange(0, year.len() as int) =~= year);
    assert(whole.subrange(year.len() as int + 1, whole.len() as int) =~= tail);
    lemma_first_dash(tail, month.len() as int);
    assert(tail.subrange(0, month.len() as int) =~= month);
    assert(tail.subrange(month.len() as int + 1, tail.len() as int) =~= day);
    lemma_first_dash(day, day.len() as int);
    assert(fields(day) == seq![day]);
    assert(fields(tail) =~= seq![month, day]);
    assert(fields(whole) =~= seq![year, month, day]);
}

/// Where the first hyphen at or after `from` stands; the length of `chars`
/// where there is none.
pub fn dash_from(chars: &Vec<char>, from: usize) -> (k: usize)
    requires
        from <= chars.len(),
    ensures
        from <= k <= chars.len(),
        k - from == first_dash(chars@.subrange(from as int, chars.len() as int)),
{
    let n = chars.len();
    let mut k: usize = from;
    while k < n && chars[k] != '-'
        invariant
            from <= k <= n == chars.len(),
            forall|i: int| from <= i < k ==> #[trigger] chars@[i] != '-',
        decreases n - k,
    {
        k = k + 1;
    }
    proof {
        let rest = chars@.subrange(from as int, n as int);
        assert forall|i: int| 0 <= i < k - from implies #[trigger] rest[i] != '-' by {
            assert(rest[i] == chars@[from + i]);
        }
        lemma_first_dash(rest, k - from);
    }
    k
}

impl std::str::FromStr for DateInput {
    type Err = Error;

    /// Reads a date written as year, month and day with a hyphen between them,
    /// such as `2025-01-12` or `2026-1-31`. Each part is a numeral: digits,
    /// with or without leading zeros or one plus sign before them.
    ///
    /// A text is read if and only if `date_fault` finds nothing wrong with it;
    /// the result is then `date_of` the text. Any other text is refused with
    /// the message of its first fault.
    fn from_str(input: &str) -> (r: Result<Self, Error>)
        ensures
            r is Ok <==> date_fault(input@) is None,
            r matches Ok(date) ==> date.in_range(),
            match date_fault(input@) {
                None => r == Ok::<DateInput, Error>(date_of(input@)),
                Some(fault) => fails_with(r, fault_message(fault)),
            },
    {
        let chars = chars_of(input);
        let n = chars.len();
        let ghost s = chars@;
        let a = dash_from(&chars, 0);
        assert(s.subrange(0, n as int) =~= s);
        if a == n {
            return Err(failure("Invalid date format. Should be like 2025-01-12"));
        }
        let ghost s1 = s.subrange(a + 1, n as int);
        let b = dash_from(&chars, a + 1);
        if b == n {
            assert(fields(s1) =~= seq![s1]);
            assert(fields(s).len() == 2);
            return Err(failure("Invalid date format. Should be like 2025-01-12"));
        }
        let ghost s2 = s.subrange(b + 1, n as int);
        assert(s1.subrange(b - a, s1.len() as int) =~= s2);
        let c = dash_from(&chars, b + 1);
        if c != n {
            proof {
                lemma_fields_nonempty(s2.subrange(c - b, s2.len() as int));
                assert(fields(s2).len() >= 2);
                assert(fields(s1).len() >= 3);
                assert(fields(s).len() >= 4);
            }
            return Err(failure("Invalid date format. Should be like 2025-01-12"));
        }
        proof {
            assert(fields(s2) =~= seq![s2]);
            assert(s1.subrange(0, b - a - 1) =~= s.subrange(a + 1, b as int));
            assert(fields(s1) =~= seq![s.subrange(a + 1, b as int), s2]);
            assert(fields(s) =~= seq![s.subrange(0, a as int), s.subrange(a + 1, b as int), s2]);
        }
        let year = match numeral_within(&chars, 0, a, 1970, 3000) {
            Some(year) => year,
            None => {
                return Err(failure("The year is an unrealistic value"));
            },
        };
        let month = match numeral_within(&chars, a + 1, b, 1, 12) {
            Some(month) => month,
            None => {
                return Err(failure("The month doesn't exist"));
            },
        };
        let day = match numeral_within(&chars, b + 1, n, 1, 31) {
            Some(day) => day,
            None => {
                return Err(failure("The day doesn't exist"));
            },
        };
        Ok(DateInput { year: year as i32, month: month as u32, day: day as u32 })
    }
}

} // verus!
