//! Why logs can be sorted by the text of their dates.
//!
//! The store orders logs by comparing the texts that it keeps, character by
//! character. For moments written with one and the same offset this is the
//! order in which they happened: every field has a fixed width with zeros in
//! front, and the fields stand in the text from the largest unit to the
//! smallest.
use crate::clock::{
    date_text,
    days_in_month,
    is_leap_year,
    offset_text,
    stamp_text,
    time_text,
    valid_date,
    valid_time,
    Timestamp,
};
use crate::text::{pair_text, quad_text};
use vstd::prelude::*;

verus! {

/// Whether the text `a` sorts before the text `b`: at the first place where
/// they differ `a` has the smaller character, or `a` ends there and `b` goes
/// on.
#[verifier::opaque]
pub open spec fn text_before(a: Seq<char>, b: Seq<char>) -> bool
    decreases a.len(),
{
    if b.len() == 0 {
        false
    } else if a.len() == 0 {
        true
    } else if a[0] == b[0] {
        text_before(a.drop_first(), b.drop_first())
    } else {
        a[0] < b[0]
    }
}

/// The days from the first of January of the year 0 to the first of January
/// of `year`, in the Gregorian calendar carried backwards.
pub open spec fn days_before_year(year: int) -> int {
    365 * year + (year + 3) / 4 - (year + 99) / 100 + (year + 399) / 400
}

/// The days from the first of January to the first of `month` in `year`.
pub open spec fn days_before_month(year: int, month: int) -> int {
    let leap: int = if is_leap_year(year) {
        1
    } else {
        0
    };
    if month <= 1 {
        0
    } else if month == 2 {
        31
    } else if month == 3 {
        59 + leap
    } else if month == 4 {
        90 + leap
    } else if month == 5 {
        120 + leap
    } else if month == 6 {
        151 + leap
    } else if month == 7 {
        181 + leap
    } else if month == 8 {
        212 + leap
    } else if month == 9 {
        243 + leap
    } else if month == 10 {
        273 + leap
    } else if month == 11 {
        304 + leap
    } else {
        334 + leap
    }
}

/// The days from the first of January of the year 0 to the given day.
pub open spec fn day_number(year: int, month: int, day: int) -> int {
    days_before_year(year) + days_before_month(year, month) + day - 1
}

/// The seconds from the start of the year 0 in UTC to the moment: the place
/// of the moment in time.
pub open spec fn instant(moment: Timestamp) -> int {
    day_number(moment.year as int, moment.month as int, moment.day as int) * 86_400 + moment.hour
        * 3_600 + moment.minute * 60 + moment.second - moment.offset
}

/// Whether the first of two triples comes before the second when the first
/// members are compared first and the last members last.
pub open spec fn triple_before(a: (int, int, int), b: (int, int, int)) -> bool {
    a.0 < b.0 || (a.0 == b.0 && (a.1 < b.1 || (a.1 == b.1 && a.2 < b.2)))
}

/// Texts that begin with parts of one length compare by these parts first and
/// by what follows only where the parts are equal.
pub proof fn lemma_before_concat(x: Seq<char>, p: Seq<char>, y: Seq<char>, q: Seq<char>)
    requires
        x.len() == y.len(),
    ensures
        text_before(x + p, y + q) == (text_before(x, y) || (x == y && text_before(p, q))),
        (x + p == y + q) == (x == y && p == q),
        text_before(x, y) ==> x != y,
    decreases x.len(),
{
    reveal_with_fuel(text_before, 2);
    if x.len() == 0 {
        assert(x + p =~= p);
        assert(y + q =~= q);
        assert(x =~= y);
    } else {
        let x1 = x.drop_first();
        let y1 = y.drop_first();
        lemma_before_concat(x1, p, y1, q);
        assert((x + p).drop_first() =~= x1 + p);
        assert((y + q).drop_first() =~= y1 + q);
        assert((x + p)[0] == x[0]);
        assert((y + q)[0] == y[0]);
        assert(x =~= seq![x[0]] + x1);
        assert(y =~= seq![y[0]] + y1);
        if x + p == y + q {
            assert(x =~= (x + p).subrange(0, x.len() as int));
            assert(y =~= (y + q).subrange(0, y.len() as int));
            assert(p =~= (x + p).subrange(x.len() as int, (x + p).len() as int));
            assert(q =~= (y + q).subrange(y.len() as int, (y + q).len() as int));
        }
    }
}

/// No text sorts before itself.
pub proof fn lemma_not_before_itself(x: Seq<char>)
    ensures
        !text_before(x, x),
{
    lemma_before_concat(x, Seq::<char>::empty(), x, Seq::<char>::empty());
}

/// One and the same character in front changes nothing in the order.
pub proof fn lemma_before_after_mark(mark: char, p: Seq<char>, q: Seq<char>)
    ensures
        text_before(seq![mark] + p, seq![mark] + q) == text_before(p, q),
        (seq![mark] + p == seq![mark] + q) == (p == q),
{
    lemma_before_concat(seq![mark], p, seq![mark], q);
    lemma_not_before_itself(seq![mark]);
}

/// Two digits with a zero in front where needed compare as the numbers that
/// they write.
pub proof fn lemma_pair_order(m: nat, n: nat)
    requires
        m < 100,
        n < 100,
    ensures
        text_before(pair_text(m), pair_text(n)) == (m < n),
        (pair_text(m) == pair_text(n)) == (m == n),
        pair_text(m).len() == 2,
        pair_text(n).len() == 2,
{
    let a = pair_text(m);
    let b = pair_text(n);
    reveal_with_fuel(text_before, 3);
    assert(a.drop_first() =~= seq![a[1]]);
    assert(b.drop_first() =~= seq![b[1]]);
    assert(a.drop_first().drop_first() =~= Seq::<char>::empty());
    assert(b.drop_first().drop_first() =~= Seq::<char>::empty());
    if a == b {
        assert(a[0] == b[0] && a[1] == b[1]);
    }
}

/// Four digits with zeros in front where needed compare as the numbers that
/// they write.
pub proof fn lemma_quad_order(m: nat, n: nat)
    requires
        m < 10_000,
        n < 10_000,
    ensures
        text_before(quad_text(m), quad_text(n)) == (m < n),
        (quad_text(m) == quad_text(n)) == (m == n),
        quad_text(m).len() == 4,
        quad_text(n).len() == 4,
{
    lemma_pair_order(m / 100, n / 100);
    lemma_pair_order(m % 100, n % 100);
    lemma_before_concat(pair_text(m / 100), pair_text(m % 100), pair_text(n / 100), pair_text(n % 100));
}

/// Three fields of fixed widths with a mark between them compare field by
/// field, the first field first.
pub proof fn lemma_fields_order(
    a1: Seq<char>,
    b1: Seq<char>,
    c1: Seq<char>,
    a2: Seq<char>,
    b2: Seq<char>,
    c2: Seq<char>,
    mark: char,
)
    requires
        a1.len() == a2.len(),
        b1.len() == b2.len(),
    ensures
        text_before(a1 + seq![mark] + b1 + seq![mark] + c1, a2 + seq![mark] + b2 + seq![mark] + c2)
            == (text_before(a1, a2) || (a1 == a2 && (text_before(b1, b2) || (b1 == b2
            && text_before(c1, c2))))),
        (a1 + seq![mark] + b1 + seq![mark] + c1 == a2 + seq![mark] + b2 + seq![mark] + c2) == (a1
            == a2 && b1 == b2 && c1 == c2),
{
    let r1 = b1 + (seq![mark] + c1);
    let r2 = b2 + (seq![mark] + c2);
    assert(a1 + seq![mark] + b1 + seq![mark] + c1 =~= a1 + (seq![mark] + r1));
    assert(a2 + seq![mark] + b2 + seq![mark] + c2 =~= a2 + (seq![mark] + r2));
    lemma_before_concat(a1, seq![mark] + r1, a2, seq![mark] + r2);
    lemma_before_after_mark(mark, r1, r2);
    lemma_before_concat(b1, seq![mark] + c1, b2, seq![mark] + c2);
    lemma_before_after_mark(mark, c1, c2);
}

/// Dates written as `YYYY-MM-DD` sort as year, month and day do.
pub proof fn lemma_date_text_order(y1: int, m1: int, d1: int, y2: int, m2: int, d2: int)
    requires
        0 <= y1 <= 9999,
        0 <= y2 <= 9999,
        0 <= m1 < 100,
        0 <= m2 < 100,
        0 <= d1 < 100,
        0 <= d2 < 100,
    ensures
        text_before(date_text(y1, m1, d1), date_text(y2, m2, d2)) == triple_before(
            (y1, m1, d1),
            (y2, m2, d2),
        ),
        (date_text(y1, m1, d1) == date_text(y2, m2, d2)) == (y1 == y2 && m1 == m2 && d1 == d2),
        date_text(y1, m1, d1).len() == 10,
        date_text(y2, m2, d2).len() == 10,
{
    reveal(date_text);
    lemma_quad_order(y1 as nat, y2 as nat);
    lemma_pair_order(m1 as nat, m2 as nat);
    lemma_pair_order(d1 as nat, d2 as nat);
    lemma_fields_order(
        quad_text(y1 as nat),
        pair_text(m1 as nat),
        pair_text(d1 as nat),
        quad_text(y2 as nat),
        pair_text(m2 as nat),
        pair_text(d2 as nat),
        '-',
    );
}

/// Times of day written as `HH:MM:SS` sort as hour, minute and second do.
pub proof fn lemma_time_text_order(h1: int, m1: int, s1: int, h2: int, m2: int, s2: int)
    requires
        0 <= h1 < 100,
        0 <= h2 < 100,
        0 <= m1 < 100,
        0 <= m2 < 100,
        0 <= s1 < 100,
        0 <= s2 < 100,
    ensures
        text_before(time_text(h1, m1, s1), time_text(h2, m2, s2)) == triple_before(
            (h1, m1, s1),
            (h2, m2, s2),
        ),
        (time_text(h1, m1, s1) == time_text(h2, m2, s2)) == (h1 == h2 && m1 == m2 && s1 == s2),
        time_text(h1, m1, s1).len() == 8,
        time_text(h2, m2, s2).len() == 8,
{
    reveal(time_text);
    lemma_pair_order(h1 as nat, h2 as nat);
    lemma_pair_order(m1 as nat, m2 as nat);
    lemma_pair_order(s1 as nat, s2 as nat);
    lemma_fields_order(
        pair_text(h1 as nat),
        pair_text(m1 as nat),
        pair_text(s1 as nat),
        pair_text(h2 as nat),
        pair_text(m2 as nat),
        pair_text(s2 as nat),
        ':',
    );
}

/// Counting the multiples of 4 below a year: the count grows by one exactly
/// after a multiple.
proof fn lemma_fours(year: int)
    requires
        0 <= year,
    ensures
        (year + 4) / 4 - (year + 3) / 4 == (if year % 4 == 0 {
            1int
        } else {
            0int
        }),
{
}

/// The same for the multiples of 100.
proof fn lemma_hundreds(year: int)
    requires
        0 <= year,
    ensures
        (year + 100) / 100 - (year + 99) / 100 == (if year % 100 == 0 {
            1int
        } else {
            0int
        }),
{
}

/// The same for the multiples of 400.
proof fn lemma_four_hundreds(year: int)
    requires
        0 <= year,
    ensures
        (year + 400) / 400 - (year + 399) / 400 == (if year % 400 == 0 {
            1int
        } else {
            0int
        }),
{
}

/// A multiple of 400 is one of 100, and a multiple of 100 is one of 4.
proof fn lemma_multiples(year: int)
    requires
        0 <= year,
    ensures
        year % 400 == 0 ==> year % 100 == 0,
        year % 100 == 0 ==> year % 4 == 0,
{
}

/// A year has 365 days, and one more where it is a leap year.
pub proof fn lemma_year_length(year: int)
    requires
        0 <= year,
    ensures
        days_before_year(year + 1) == days_before_year(year) + 365 + (if is_leap_year(year) {
            1int
        } else {
            0int
        }),
{
    lemma_fours(year);
    lemma_hundreds(year);
    lemma_four_hundreds(year);
    lemma_multiples(year);
}

/// A later year begins no earlier than the year before it ends.
pub proof fn lemma_years_in_order(y1: int, y2: int)
    requires
        0 <= y1 < y2,
    ensures
        days_before_year(y1 + 1) <= days_before_year(y2),
    decreases y2 - y1,
{
    if y1 + 1 < y2 {
        lemma_years_in_order(y1, y2 - 1);
        lemma_year_length(y2 - 1);
    }
}

/// Days that exist are numbered in the order of year, month and day.
pub proof fn lemma_day_number_order(y1: int, m1: int, d1: int, y2: int, m2: int, d2: int)
    requires
        0 <= y1,
        0 <= y2,
        valid_date(y1, m1, d1),
        valid_date(y2, m2, d2),
    ensures
        (day_number(y1, m1, d1) < day_number(y2, m2, d2)) == triple_before(
            (y1, m1, d1),
            (y2, m2, d2),
        ),
        (day_number(y1, m1, d1) == day_number(y2, m2, d2)) == (y1 == y2 && m1 == m2 && d1 == d2),
{
    assert(days_before_month(y1, m1) + days_in_month(y1, m1) == days_before_month(y1, m1 + 1) || m1
        == 12);
    assert(days_before_month(y2, m2) + days_in_month(y2, m2) == days_before_month(y2, m2 + 1) || m2
        == 12);
    lemma_year_length(y1);
    lemma_year_length(y2);
    if y1 < y2 {
        lemma_years_in_order(y1, y2);
    } else if y2 < y1 {
        lemma_years_in_order(y2, y1);
    }
}

/// Whether the date and time of day of `a`, read as six numbers from the
/// year down to the second, come before those of `b`.
pub open spec fn fields_before(a: Timestamp, b: Timestamp) -> bool {
    let date_a = (a.year as int, a.month as int, a.day as int);
    let date_b = (b.year as int, b.month as int, b.day as int);
    let time_a = (a.hour as int, a.minute as int, a.second as int);
    let time_b = (b.hour as int, b.minute as int, b.second as int);
    triple_before(date_a, date_b) || (date_a == date_b && triple_before(time_a, time_b))
}

/// Texts made of a date, a `T`, a time of day and one and the same ending
/// sort by the date first and by the time of day where the dates are equal.
pub proof fn lemma_parts_order(
    date_a: Seq<char>,
    time_a: Seq<char>,
    date_b: Seq<char>,
    time_b: Seq<char>,
    ending: Seq<char>,
)
    requires
        date_a.len() == date_b.len(),
        time_a.len() == time_b.len(),
    ensures
        text_before(date_a + seq!['T'] + time_a + ending, date_b + seq!['T'] + time_b + ending) == (
        text_before(date_a, date_b) || (date_a == date_b && text_before(time_a, time_b))),
        (date_a + seq!['T'] + time_a + ending == date_b + seq!['T'] + time_b + ending) == (date_a
            == date_b && time_a == time_b),
{
    let rest_a = seq!['T'] + (time_a + ending);
    let rest_b = seq!['T'] + (time_b + ending);
    assert(date_a + seq!['T'] + time_a + ending =~= date_a + rest_a);
    assert(date_b + seq!['T'] + time_b + ending =~= date_b + rest_b);
    lemma_before_concat(date_a, rest_a, date_b, rest_b);
    lemma_before_after_mark('T', time_a + ending, time_b + ending);
    lemma_before_concat(time_a, ending, time_b, ending);
    lemma_not_before_itself(ending);
}

/// The texts of two moments with one offset sort as their fields do.
pub proof fn lemma_stamp_text_order(a: Timestamp, b: Timestamp)
    requires
        a.is_civil(),
        b.is_civil(),
        a.offset == b.offset,
    ensures
        text_before(stamp_text(a), stamp_text(b)) == fields_before(a, b),
        (stamp_text(a) == stamp_text(b)) == (a == b),
{
    lemma_date_text_order(
        a.year as int,
        a.month as int,
        a.day as int,
        b.year as int,
        b.month as int,
        b.day as int,
    );
    lemma_time_text_order(
        a.hour as int,
        a.minute as int,
        a.second as int,
        b.hour as int,
        b.minute as int,
        b.second as int,
    );
    lemma_parts_order(
        date_text(a.year as int, a.month as int, a.day as int),
        time_text(a.hour as int, a.minute as int, a.second as int),
        date_text(b.year as int, b.month as int, b.day as int),
        time_text(b.hour as int, b.minute as int, b.second as int),
        offset_text(a.offset as int),
    );
}

/// Two moments with one offset lie in time as their fields do.
pub proof fn lemma_instant_order(a: Timestamp, b: Timestamp)
    requires
        a.is_civil(),
        b.is_civil(),
        a.offset == b.offset,
    ensures
        (instant(a) < instant(b)) == fields_before(a, b),
        (instant(a) == instant(b)) == (a == b),
{
    lemma_day_number_order(
        a.year as int,
        a.month as int,
        a.day as int,
        b.year as int,
        b.month as int,
        b.day as int,
    );
    let day_a = day_number(a.year as int, a.month as int, a.day as int);
    let day_b = day_number(b.year as int, b.month as int, b.day as int);
    let in_day_a = a.hour * 3_600 + a.minute * 60 + a.second;
    let in_day_b = b.hour * 3_600 + b.minute * 60 + b.second;
    assert(0 <= in_day_a < 86_400);
    assert(0 <= in_day_b < 86_400);
    assert(instant(a) == day_a * 86_400 + in_day_a - a.offset);
    assert(instant(b) == day_b * 86_400 + in_day_b - b.offset);
}

/// Among moments that are written with one and the same offset, the text of
/// one sorts before the text of another exactly where the one is earlier in
/// time, and two texts are equal exactly where the moments are.
pub proof fn lemma_text_order_is_time_order(a: Timestamp, b: Timestamp)
    requires
        a.is_civil(),
        b.is_civil(),
        a.offset == b.offset,
    ensures
        text_before(stamp_text(a), stamp_text(b)) == (instant(a) < instant(b)),
        (stamp_text(a) == stamp_text(b)) == (instant(a) == instant(b)),
{
    lemma_stamp_text_order(a, b);
    lemma_instant_order(a, b);
}

} // verus!
