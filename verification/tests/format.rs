use edwardium_logger::level::Level;
use edwardium_logger::record::LogRecord;
use edwardium_logger::targets::util::colored_logline::ColoredLogLine;
use edwardium_logger::targets::util::decimal::push_zero_padded;
use edwardium_logger::targets::util::{LogLine, Timestamp};
use edwardium_logger::timing::Duration;

fn padded(n: u64, width: usize) -> String {
    let mut out = String::new();
    push_zero_padded(&mut out, n, width);
    out
}

#[test]
fn numbers_are_filled_up_with_zeros() {
    assert_eq!(padded(0, 3), "000");
    assert_eq!(padded(7, 3), "007");
    assert_eq!(padded(42, 3), "042");
    assert_eq!(padded(999, 3), "999");
    assert_eq!(padded(5, 2), "05");
    assert_eq!(padded(400, 4), "0400");
    assert_eq!(padded(0, 0), "0");
    assert_eq!(padded(9, 1), "9");
}

#[test]
fn numbers_wider_than_the_field_are_not_cut() {
    assert_eq!(padded(1000, 3), "1000");
    assert_eq!(padded(123_456, 3), "123456");
    assert_eq!(padded(u64::MAX, 3), "18446744073709551615");
    assert_eq!(padded(u64::MAX, 25), "0000018446744073709551615");
}

#[test]
fn padding_appends_to_what_is_there() {
    let mut out = String::from("x=");
    push_zero_padded(&mut out, 12, 4);
    assert_eq!(out, "x=0012");
}

#[test]
fn padding_agrees_with_std_formatting() {
    for n in [0u64, 1, 9, 10, 59, 99, 100, 250, 999, 1000, 54_321, u64::MAX] {
        assert_eq!(padded(n, 3), format!("{:0>3}", n));
        assert_eq!(padded(n, 2), format!("{:0>2}", n));
        assert_eq!(padded(n, 4), format!("{:0>4}", n));
    }
}

#[test]
fn timestamp_new_takes_its_parts_as_they_are() {
    let t = Timestamp::new(2, 5, 400);
    assert_eq!(t.minutes, 2);
    assert_eq!(t.seconds, 5);
    assert_eq!(t.millis, 400);
    assert_eq!(Timestamp::new(1, 75, 4000).render(), "+001:75.4000");
}

#[test]
fn timestamp_of_a_duration_splits_minutes_seconds_millis() {
    let t = Timestamp::from(Duration::from_millis(125_400));
    assert_eq!(t.minutes, 2);
    assert_eq!(t.seconds, 5);
    assert_eq!(t.millis, 400);
    assert_eq!(t.minutes * 60 + t.seconds, 125);
}

#[test]
fn timestamp_of_125_4_seconds() {
    assert_eq!(Timestamp::from(Duration::from_millis(125_400)).render(), "+002:05.0400");
}

#[test]
fn timestamp_of_zero() {
    assert_eq!(Timestamp::from(Duration::zero()).render(), "+000:00.0000");
}

#[test]
fn timestamp_just_below_a_minute() {
    assert_eq!(Timestamp::from(Duration::new(59, 999_999_999)).render(), "+000:59.0999");
}

#[test]
fn timestamp_of_a_thousand_minutes_grows() {
    assert_eq!(Timestamp::from(Duration::new(60_000, 0)).render(), "+1000:00.0000");
    assert_eq!(Timestamp::from(Duration::new(59_999, 1_000_000)).render(), "+999:59.0001");
}

#[test]
fn timestamp_of_the_longest_duration() {
    let t = Timestamp::from(Duration::new(u64::MAX, 999_999_999));
    assert_eq!(t.minutes, u64::MAX / 60);
    assert_eq!(t.seconds, u64::MAX % 60);
    assert_eq!(t.render(), "+307445734561825860:15.0999");
}

#[test]
fn timestamp_has_twelve_characters_below_a_thousand_minutes() {
    for millis in [0u64, 1, 999, 1000, 59_999, 60_000, 3_599_999, 59_999_999] {
        let text = Timestamp::from(Duration::from_millis(millis)).render();
        assert_eq!(text.len(), 12);
        assert_eq!(&text[0..1], "+");
        assert_eq!(&text[4..5], ":");
        assert_eq!(&text[7..9], ".0");
    }
}

#[test]
fn timestamp_is_appended() {
    let mut out = String::from("at ");
    Timestamp::new(1, 5, 250).write_to(&mut out);
    assert_eq!(out, "at +001:05.0250");
}

#[test]
fn line_of_a_warning() {
    let record = LogRecord::new(Level::Warn, "net", "timeout");
    let line = LogLine::new(Timestamp::from(Duration::from_millis(65_250)), &record);
    assert_eq!(line.render(), "[+001:05.0250][WARN] (net) timeout");
}

#[test]
fn line_keeps_every_part_of_the_record() {
    let record = LogRecord::new(Level::Trace, "app::db", "query took 3 ms");
    let line = LogLine::new(Timestamp::new(0, 0, 7), &record);
    assert_eq!(line.level, Level::Trace);
    assert_eq!(line.target, "app::db");
    assert_eq!(line.args, "query took 3 ms");
    assert_eq!(line.render(), "[+000:00.0007][TRACE] (app::db) query took 3 ms");
}

#[test]
fn line_of_each_level() {
    let t = Timestamp::new(0, 0, 0);
    let cases = [
        (Level::Error, "[+000:00.0000][ERROR] (a) b"),
        (Level::Warn, "[+000:00.0000][WARN] (a) b"),
        (Level::Info, "[+000:00.0000][INFO] (a) b"),
        (Level::Debug, "[+000:00.0000][DEBUG] (a) b"),
        (Level::Trace, "[+000:00.0000][TRACE] (a) b"),
    ];
    for (level, expected) in cases {
        let record = LogRecord::new(level, "a", "b");
        assert_eq!(LogLine::new(t, &record).render(), expected);
    }
}

#[test]
fn line_with_empty_and_foreign_text() {
    let record = LogRecord::new(Level::Info, "", "");
    assert_eq!(LogLine::new(Timestamp::new(0, 1, 2), &record).render(), "[+000:01.0002][INFO] () ");
    let record = LogRecord::new(Level::Info, "größe", "naïve ☃ [x] (y)");
    assert_eq!(
        LogLine::new(Timestamp::new(0, 1, 2), &record).render(),
        "[+000:01.0002][INFO] (größe) naïve ☃ [x] (y)"
    );
}

#[test]
fn coloured_line_of_each_level() {
    let t = Timestamp::new(1, 5, 250);
    let cases = [
        (Level::Error, "1", "ERROR"),
        (Level::Warn, "5", "WARN"),
        (Level::Info, "2", "INFO"),
        (Level::Debug, "4", "DEBUG"),
        (Level::Trace, "0", "TRACE"),
    ];
    for (level, colour, name) in cases {
        let record = LogRecord::new(level, "net", "timeout");
        let expected = format!(
            "[\u{1b}[38;5;3m+001:05.0250\u{1b}[39m][\u{1b}[38;5;{}m{}\u{1b}[39m] (\u{1b}[38;5;6mnet\u{1b}[39m) timeout",
            colour, name
        );
        assert_eq!(ColoredLogLine::new(t, &record).render(), expected);
    }
}

#[test]
fn coloured_line_without_its_colours_is_the_plain_line() {
    let record = LogRecord::new(Level::Warn, "net", "timeout");
    let t = Timestamp::new(1, 5, 250);
    let mut text = ColoredLogLine::new(t, &record).render();
    for code in ["\u{1b}[38;5;3m", "\u{1b}[38;5;5m", "\u{1b}[38;5;6m", "\u{1b}[39m"] {
        text = text.replace(code, "");
    }
    assert_eq!(text, LogLine::new(t, &record).render());
}

#[test]
fn coloured_line_keeps_every_part_of_the_record() {
    let record = LogRecord::new(Level::Debug, "app", "started");
    let line = ColoredLogLine::new(Timestamp::new(3, 4, 5), &record);
    assert_eq!(line.timestamp.minutes, 3);
    assert_eq!(line.timestamp.seconds, 4);
    assert_eq!(line.timestamp.millis, 5);
    assert_eq!(line.level, Level::Debug);
    assert_eq!(line.target, "app");
    assert_eq!(line.args, "started");
}
