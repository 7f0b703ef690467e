use chrono::{Datelike, Timelike};
use musiklog::cli::DateInput;
use musiklog::clock::{day_exists, Timestamp};
use musiklog::handlers::{
    before_delete, get_date, is_confirmed, moment, pick_prompt, pick_release, resolve, Outcome,
};
use musiklog::model::{Log, Release};

fn release(id: i32, name: &str, artist: &str, year: u32) -> Release {
    Release { id, name: name.to_string(), artist: artist.to_string(), release_year: year }
}

fn greatest_hits() -> Vec<Release> {
    vec![release(4, "Greatest Hits", "Queen", 1981), release(9, "Greatest Hits", "ABBA", 1975)]
}

fn now() -> Timestamp {
    Timestamp { year: 2025, month: 6, day: 1, hour: 21, minute: 4, second: 9, offset: 7200 }
}

#[test]
fn y_confirms() {
    assert!(is_confirmed("y"));
    assert!(is_confirmed("Y"));
    assert!(is_confirmed("y\n"));
    assert!(is_confirmed("Y\r\n"));
    assert!(is_confirmed("  y  \n"));
    assert!(is_confirmed("\ty"));
}

#[test]
fn anything_else_does_not_confirm() {
    assert!(!is_confirmed("n"));
    assert!(!is_confirmed("n\n"));
    assert!(!is_confirmed(""));
    assert!(!is_confirmed("\n"));
    assert!(!is_confirmed("yes"));
    assert!(!is_confirmed("yy"));
    assert!(!is_confirmed("y y"));
    assert!(!is_confirmed("ｙ"));
    assert!(!is_confirmed("1"));
}

#[test]
fn confirming_agrees_with_trimming_and_lowering() {
    for answer in ["y", "Y", " y", "y ", "n", "N", "", "yes", "YES", "\ny\n", "ý", "Ｙ", "y\u{3000}"] {
        assert_eq!(is_confirmed(answer), answer.trim().to_lowercase() == "y", "{:?}", answer);
    }
}

#[test]
fn a_number_picks_the_release_with_that_number() {
    let releases = greatest_hits();
    assert_eq!(pick_release(&releases, "1").unwrap(), &releases[0]);
    assert_eq!(pick_release(&releases, "2").unwrap(), &releases[1]);
    assert_eq!(pick_release(&releases, "2\n").unwrap(), &releases[1]);
    assert_eq!(pick_release(&releases, "  1 \r\n").unwrap(), &releases[0]);
    assert_eq!(pick_release(&releases, "+2").unwrap(), &releases[1]);
    assert_eq!(pick_release(&releases, "002").unwrap(), &releases[1]);
}

#[test]
fn a_number_out_of_range_is_an_invalid_choice() {
    let releases = greatest_hits();
    assert_eq!(pick_release(&releases, "0").unwrap_err().message, "Invalid choice");
    assert_eq!(pick_release(&releases, "3").unwrap_err().message, "Invalid choice");
    assert_eq!(pick_release(&releases, "99999999999999999999999").unwrap_err().message, "Invalid choice");
    assert_eq!(pick_release(&[], "1").unwrap_err().message, "Invalid choice");
}

#[test]
fn what_is_no_number_is_an_invalid_choice() {
    let releases = greatest_hits();
    for answer in ["", "\n", "two", "-1", "1.0", "1 2", "2nd", "ABBA"] {
        assert_eq!(pick_release(&releases, answer).unwrap_err().message, "Invalid choice", "{:?}", answer);
    }
}

#[test]
fn the_candidates_are_offered_with_their_numbers() {
    let lines = pick_prompt(&greatest_hits());
    assert_eq!(lines, vec!["1. Queen", "2. ABBA", "Pick a release by the number:"]);
}

#[test]
fn numbers_of_several_digits_are_written_in_full() {
    let releases: Vec<Release> = (0..12).map(|i| release(i, "Live", &format!("Band {}", i), 2000)).collect();
    let lines = pick_prompt(&releases);
    assert_eq!(lines.len(), 13);
    assert_eq!(lines[0], "1. Band 0");
    assert_eq!(lines[8], "9. Band 8");
    assert_eq!(lines[9], "10. Band 9");
    assert_eq!(lines[11], "12. Band 11");
    assert_eq!(lines[12], "Pick a release by the number:");
}

#[test]
fn without_candidates_only_the_question_is_left() {
    assert_eq!(pick_prompt(&[]), vec!["Pick a release by the number:"]);
}

#[test]
fn no_release_of_that_name_is_a_failure() {
    assert_eq!(resolve(&[]).unwrap_err().message, "No such release");
}

#[test]
fn one_release_of_that_name_is_the_one() {
    let releases = vec![release(7, "Geogaddi", "Boards of Canada", 2002)];
    assert_eq!(resolve(&releases).unwrap(), Some(&releases[0]));
}

#[test]
fn several_releases_of_that_name_are_left_to_the_user() {
    let releases = greatest_hits();
    assert_eq!(resolve(&releases).unwrap(), None);
    let mut three = greatest_hits();
    three.push(release(11, "Greatest Hits", "Blondie", 1981));
    assert_eq!(resolve(&three).unwrap(), None);
}

#[test]
fn without_a_log_there_is_nothing_to_delete() {
    let outcome = before_delete(5, None);
    assert_eq!(outcome, Outcome::NoLogFound);
    assert_eq!(outcome.notice(), Some("No log found"));
}

#[test]
fn a_log_that_is_there_is_asked_about() {
    let log = Log {
        date: "2025-01-12T21:04:09+01:00".to_string(),
        release: "Geogaddi".to_string(),
        artist: "Boards of Canada".to_string(),
    };
    let outcome = before_delete(5, Some(log.clone()));
    assert_eq!(outcome, Outcome::ConfirmDelete { id: 5, log });
    assert_eq!(outcome.notice(), None);
}

#[test]
fn outcomes_have_their_notices() {
    assert_eq!(Outcome::Deleted.notice(), Some("Deleted log"));
    assert_eq!(Outcome::Aborted.notice(), Some("OK, aborting delete"));
    assert_eq!(Outcome::NoLogFound.notice(), Some("No log found"));
    assert_eq!(Outcome::Done.notice(), None);
    assert_eq!(Outcome::Artists(vec![]).notice(), None);
    assert_eq!(Outcome::Releases(vec![]).notice(), None);
    assert_eq!(Outcome::Logs(vec![]).notice(), None);
}

#[test]
fn without_a_date_the_moment_is_now() {
    assert_eq!(moment(None, now(), None).unwrap(), now());
    assert_eq!(moment(None, now(), Some(0)).unwrap(), now());
}

#[test]
fn with_a_date_the_moment_is_that_day_at_this_time() {
    let day = DateInput { year: 2024, month: 2, day: 29 };
    let expected = Timestamp { year: 2024, month: 2, day: 29, hour: 21, minute: 4, second: 9, offset: 3600 };
    assert_eq!(moment(Some(day), now(), Some(3600)).unwrap(), expected);
}

#[test]
fn a_day_that_local_time_does_not_have_is_a_failure() {
    let day = DateInput { year: 2025, month: 2, day: 30 };
    assert_eq!(moment(Some(day), now(), None).unwrap_err().message, "No such local time");
}

#[test]
fn a_year_that_cannot_be_written_is_a_failure() {
    let far = Timestamp { year: 10_000, ..now() };
    assert_eq!(moment(None, far, None).unwrap_err().message, "The year is an unrealistic value");
    let before = Timestamp { year: -1, ..now() };
    assert_eq!(moment(None, before, None).unwrap_err().message, "The year is an unrealistic value");
    let day = DateInput { year: 12_000, month: 1, day: 1 };
    assert_eq!(moment(Some(day), now(), Some(0)).unwrap_err().message, "The year is an unrealistic value");
}

#[test]
fn an_offset_that_cannot_be_written_is_a_failure() {
    let odd = Timestamp { offset: 86_370, ..now() };
    assert_eq!(moment(None, odd, None).unwrap_err().message, "The offset is an unrealistic value");
    let day = DateInput { year: 2025, month: 1, day: 12 };
    assert_eq!(moment(Some(day), now(), Some(-86_370)).unwrap_err().message, "The offset is an unrealistic value");
    assert!(moment(Some(day), now(), Some(-86_369)).is_ok());
    assert!(moment(Some(day), odd, Some(0)).is_ok());
}

#[test]
fn the_year_is_looked_at_before_the_offset() {
    let odd = Timestamp { year: 10_000, offset: 86_399, ..now() };
    assert_eq!(moment(None, odd, None).unwrap_err().message, "The year is an unrealistic value");
}

#[test]
fn the_clock_gives_a_civil_moment_close_to_now() {
    let before = chrono::Local::now();
    let got = get_date(None).unwrap();
    let after = chrono::Local::now();
    assert!(got.can_be_kept());
    let text = got.to_rfc3339();
    let read = chrono::DateTime::parse_from_rfc3339(&text).unwrap();
    assert!(before.timestamp() <= read.timestamp());
    assert!(read.timestamp() <= after.timestamp());
    assert_eq!(got.offset, before.offset().local_minus_utc());
}

#[test]
fn a_given_day_is_combined_with_the_time_of_day() {
    let before = chrono::Local::now();
    let got = get_date(Some(DateInput { year: 2025, month: 1, day: 12 })).unwrap();
    let after = chrono::Local::now();
    assert!(got.can_be_kept());
    assert_eq!((got.year, got.month, got.day), (2025, 1, 12));
    let seconds = got.hour * 3600 + got.minute * 60 + got.second;
    if before.date_naive() == after.date_naive() {
        assert!(before.num_seconds_from_midnight() <= seconds);
        assert!(seconds <= after.num_seconds_from_midnight());
    }
    let at_that_day = chrono::TimeZone::with_ymd_and_hms(&chrono::Local, 2025, 1, 12, got.hour, got.minute, got.second).unwrap();
    assert_eq!(got.offset, at_that_day.offset().local_minus_utc());
    assert_eq!(at_that_day.year(), 2025);
}

#[test]
fn the_number_on_a_line_picks_the_release_of_that_line() {
    let releases: Vec<Release> = (0..25).map(|i| release(100 + i, "Live", &format!("Band {}", i), 2000)).collect();
    let lines = pick_prompt(&releases);
    for (i, line) in lines.iter().take(releases.len()).enumerate() {
        let number = line.split('.').next().unwrap();
        assert_eq!(pick_release(&releases, number).unwrap(), &releases[i]);
        assert_eq!(pick_release(&releases, &format!("{}\n", number)).unwrap(), &releases[i]);
        assert!(line.ends_with(&releases[i].artist));
    }
}

#[test]
fn the_settling_of_a_moment_fails_in_three_ways_only() {
    let days = [
        DateInput { year: 2025, month: 2, day: 28 },
        DateInput { year: 2024, month: 2, day: 29 },
        DateInput { year: 12_000, month: 1, day: 1 },
        DateInput { year: -5, month: 1, day: 1 },
        DateInput { year: 2025, month: 1, day: 12 },
    ];
    for day in days {
        assert!(day_exists(day.year, day.month, day.day));
        match get_date(Some(day)) {
            Ok(at) => {
                assert!(at.can_be_kept());
                assert_eq!((at.year, at.month, at.day), (day.year, day.month, day.day));
            }
            Err(refusal) => assert!(
                ["No such local time", "The year is an unrealistic value", "The offset is an unrealistic value"]
                    .contains(&refusal.message.as_str())
            ),
        }
    }
    assert_eq!(get_date(Some(days[2])).unwrap_err().message, "The year is an unrealistic value");
}

#[test]
fn days_that_the_calendar_has_exist() {
    assert!(day_exists(2025, 1, 31));
    assert!(day_exists(2024, 2, 29));
    assert!(day_exists(2000, 2, 29));
    assert!(day_exists(1970, 1, 1));
    assert!(day_exists(3000, 12, 31));
    assert!(day_exists(-4, 2, 29));
}

#[test]
fn days_that_the_calendar_does_not_have_do_not_exist() {
    assert!(!day_exists(2025, 2, 30));
    assert!(!day_exists(2025, 2, 29));
    assert!(!day_exists(1900, 2, 29));
    assert!(!day_exists(2025, 4, 31));
    assert!(!day_exists(2025, 0, 1));
    assert!(!day_exists(2025, 13, 1));
    assert!(!day_exists(2025, 1, 0));
    assert!(!day_exists(2025, 1, 32));
}

#[test]
fn the_days_that_exist_are_those_of_chrono() {
    for year in [-400, -100, -4, -1, 0, 1900, 1999, 2000, 2023, 2024, 2100, 2400] {
        for month in 0..=13u32 {
            for day in 0..=32u32 {
                let expected = chrono::NaiveDate::from_ymd_opt(year, month, day).is_some();
                assert_eq!(day_exists(year, month, day), expected, "{}-{}-{}", year, month, day);
            }
        }
    }
}
