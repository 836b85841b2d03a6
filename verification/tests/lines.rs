use chrono::NaiveDateTime;
use logsink::file::{write_line, write_record, write_stamped, File, Moment, Stderr, Stdout};
use logsink::level::{Level, LevelFilter, Record};
use logsink::Logger;
use owo_colors::colors::css::{
    BlueViolet, DimGray, MediumSeaGreen, OrangeRed, Plum, SteelBlue, Yellow,
};
use owo_colors::{OwoColorize, Style};

const STAMP: &str = "Oct 28 2026 01:23:45.000678 PM";

const LAYOUT: &str = "%b %d %Y %I:%M:%S%.6f %p";

/// The moment that the clock and the time zone of the machine show.
fn now() -> Moment {
    let now = chrono::Local::now();
    Moment {
        secs: now.timestamp(),
        nanos: now.timestamp_subsec_nanos(),
        offset: now.offset().local_minus_utc(),
    }
}

/// The timestamp of a moment: what stands before the level in its line.
fn stamp_of(moment: Moment) -> Option<String> {
    let mut out = String::new();
    if write_record(&mut out, &Record::new(Level::Info, "t", "m"), false, moment) {
        let at = out.find(" INFO  t m\n").expect("the rest of the line");
        assert_eq!(at + " INFO  t m\n".len(), out.len());
        Some(out[..at].to_string())
    } else {
        assert_eq!(out, "");
        None
    }
}

fn plain(level: Level, target: &str, message: &str) -> String {
    let mut out = String::new();
    write_line(&mut out, STAMP, &Record::new(level, target, message), false);
    out
}

fn tinted(level: Level, target: &str, message: &str) -> String {
    let mut out = String::new();
    write_line(&mut out, STAMP, &Record::new(level, target, message), true);
    out
}

#[test]
fn a_plain_line_is_the_four_fields_with_single_spaces() {
    assert_eq!(
        plain(Level::Info, "app::db", "connected"),
        "Oct 28 2026 01:23:45.000678 PM INFO  app::db connected\n"
    );
    assert_eq!(
        plain(Level::Error, "app", "disk full"),
        "Oct 28 2026 01:23:45.000678 PM ERROR app disk full\n"
    );
    assert_eq!(plain(Level::Warn, "w", "x"), "Oct 28 2026 01:23:45.000678 PM WARN  w x\n");
    assert_eq!(plain(Level::Debug, "d", "y"), "Oct 28 2026 01:23:45.000678 PM DEBUG d y\n");
    assert_eq!(plain(Level::Trace, "t", "z"), "Oct 28 2026 01:23:45.000678 PM TRACE t z\n");
}

#[test]
fn the_message_stands_as_it_is() {
    let message = "a  b, c; d: \"e\" %s {} \\n\ttab\nsecond line ";
    let text = plain(Level::Info, "t", message);
    assert_eq!(text, format!("{} INFO  t {}\n", STAMP, message));
    assert!(text.ends_with(&format!(" {}\n", message)));
}

#[test]
fn empty_fields_keep_their_spaces() {
    assert_eq!(plain(Level::Info, "", ""), format!("{} INFO   \n", STAMP));
}

#[test]
fn a_line_is_appended_to_what_the_writer_holds() {
    let mut out = String::from("before\n");
    write_line(&mut out, STAMP, &Record::new(Level::Warn, "t", "m"), false);
    write_line(&mut out, STAMP, &Record::new(Level::Info, "u", "n"), false);
    assert_eq!(out, format!("before\n{0} WARN  t m\n{0} INFO  u n\n", STAMP));
}

#[test]
fn a_tinted_line_has_the_sequences_of_its_colors() {
    assert_eq!(
        tinted(Level::Error, "app", "disk full"),
        "\x1b[38;2;105;105;105mOct 28 2026 01:23:45.000678 PM\x1b[39m \
         \x1b[38;2;255;69;0mERROR\x1b[0m \x1b[38;2;060;179;113mapp\x1b[39m disk full\n"
    );
    assert_eq!(
        tinted(Level::Warn, "app", "m"),
        "\x1b[38;2;105;105;105mOct 28 2026 01:23:45.000678 PM\x1b[39m \
         \x1b[38;2;255;255;0mWARN \x1b[0m \x1b[38;2;060;179;113mapp\x1b[39m m\n"
    );
    assert_eq!(
        tinted(Level::Info, "app", "m"),
        "\x1b[38;2;105;105;105mOct 28 2026 01:23:45.000678 PM\x1b[39m \
         \x1b[38;2;70;130;180mINFO \x1b[0m \x1b[38;2;060;179;113mapp\x1b[39m m\n"
    );
    assert_eq!(
        tinted(Level::Debug, "app", "m"),
        "\x1b[38;2;105;105;105mOct 28 2026 01:23:45.000678 PM\x1b[39m \
         \x1b[38;2;221;160;221mDEBUG\x1b[0m \x1b[38;2;060;179;113mapp\x1b[39m m\n"
    );
    assert_eq!(
        tinted(Level::Trace, "app", "m"),
        "\x1b[38;2;105;105;105mOct 28 2026 01:23:45.000678 PM\x1b[39m \
         \x1b[38;2;138;43;226mTRACE\x1b[0m \x1b[38;2;060;179;113mapp\x1b[39m m\n"
    );
}

fn shown_by_owo_colors(level: log::Level, target: &str, message: &str) -> String {
    let timestamp = STAMP.fg::<DimGray>();
    let level = level.style(match level {
        log::Level::Error => Style::new().fg::<OrangeRed>(),
        log::Level::Warn => Style::new().fg::<Yellow>(),
        log::Level::Info => Style::new().fg::<SteelBlue>(),
        log::Level::Debug => Style::new().fg::<Plum>(),
        log::Level::Trace => Style::new().fg::<BlueViolet>(),
    });
    let target = target.fg::<MediumSeaGreen>();
    format!("{timestamp} {level:<5} {target} {message}\n")
}

#[test]
fn a_tinted_line_is_what_owo_colors_shows() {
    let pairs = [
        (Level::Error, log::Level::Error),
        (Level::Warn, log::Level::Warn),
        (Level::Info, log::Level::Info),
        (Level::Debug, log::Level::Debug),
        (Level::Trace, log::Level::Trace),
    ];
    for (ours, theirs) in pairs {
        assert_eq!(
            tinted(ours, "net::tcp", "peer 10.0.0.7 closed"),
            shown_by_owo_colors(theirs, "net::tcp", "peer 10.0.0.7 closed")
        );
    }
}

/// The fields of a plain line that was stamped by the clock: the timestamp,
/// which is read with its layout, and the rest.
fn split_stamped(line: &str) -> (NaiveDateTime, String) {
    let at = line.find(" INFO  ").expect("the level follows the timestamp");
    let stamp = &line[..at];
    let time = NaiveDateTime::parse_from_str(stamp, LAYOUT).expect("a timestamp in the layout");
    (time, line[at..].to_string())
}

#[test]
fn a_record_is_stamped_with_the_local_time() {
    let before = chrono::Local::now().naive_local();
    let mut out = String::new();
    assert!(write_record(&mut out, &Record::new(Level::Info, "t", "m"), false, now()));
    let after = chrono::Local::now().naive_local();
    let (time, rest) = split_stamped(&out);
    assert_eq!(rest, " INFO  t m\n");
    assert!(before - chrono::Duration::seconds(1) <= time);
    assert!(time <= after + chrono::Duration::seconds(1));
    assert_eq!(out.matches('\n').count(), 1);
}

#[test]
fn the_timestamp_has_its_layout() {
    let months =
        ["Jan", "Feb", "Mar", "Apr", "May", "Jun", "Jul", "Aug", "Sep", "Oct", "Nov", "Dec"];
    let mut out = String::new();
    assert!(write_record(&mut out, &Record::new(Level::Info, "t", "m"), false, now()));
    let stamp = &out[..out.find(" INFO  ").unwrap()];
    assert!(stamp.len() >= 30);
    let digits = |text: &str| !text.is_empty() && text.bytes().all(|b| b.is_ascii_digit());
    let parts: Vec<&str> = stamp.split(' ').collect();
    assert_eq!(parts.len(), 5);
    assert!(months.contains(&parts[0]));
    assert!(parts[1].len() == 2 && digits(parts[1]));
    let year = parts[2];
    assert!(
        (year.len() == 4 && digits(year))
            || (year.len() >= 5 && (year.starts_with('+') || year.starts_with('-'))
                && digits(&year[1..]))
    );
    let clock = parts[3];
    assert_eq!(clock.len(), 15);
    assert!(digits(&clock[0..2]) && digits(&clock[3..5]) && digits(&clock[6..8]));
    assert_eq!(&clock[2..3], ":");
    assert_eq!(&clock[5..6], ":");
    assert_eq!(&clock[8..9], ".");
    assert!(digits(&clock[9..15]));
    assert!(parts[4] == "AM" || parts[4] == "PM");
    let hour: u32 = clock[..2].parse().unwrap();
    assert!((1..=12).contains(&hour));
    assert!(!stamp.contains('\n'));
}

#[test]
fn standard_error_writes_what_passes_its_threshold() {
    let sink = Stderr::new(Logger { filter: LevelFilter::Info });
    assert!(sink.log(&Record::new(Level::Debug, "t", "m"), now()).is_none());
    assert!(sink.log(&Record::new(Level::Trace, "t", "m"), now()).is_none());
    let text = sink.log(&Record::new(Level::Info, "t", "m"), now()).expect("info passes info");
    assert!(text.starts_with("\x1b[38;2;105;105;105m"));
    assert!(text.ends_with(
        "\x1b[39m \x1b[38;2;70;130;180mINFO \x1b[0m \x1b[38;2;060;179;113mt\x1b[39m m\n"
    ));
    assert!(sink.log(&Record::new(Level::Error, "t", "m"), now()).is_some());
    assert!(sink.enabled(&Record::new(Level::Warn, "t", "m").metadata));
    assert!(!sink.enabled(&Record::new(Level::Debug, "t", "m").metadata));
}

#[test]
fn standard_output_writes_what_passes_its_threshold() {
    let sink = Stdout::new(Logger { filter: LevelFilter::Error });
    assert!(sink.log(&Record::new(Level::Warn, "t", "m"), now()).is_none());
    let text = sink.log(&Record::new(Level::Error, "t", "m"), now()).expect("error passes error");
    assert!(text.ends_with(
        "\x1b[39m \x1b[38;2;255;69;0mERROR\x1b[0m \x1b[38;2;060;179;113mt\x1b[39m m\n"
    ));
    assert!(sink.enabled(&Record::new(Level::Error, "t", "m").metadata));
    assert!(!sink.enabled(&Record::new(Level::Warn, "t", "m").metadata));
    let off = Stdout::new(Logger { filter: LevelFilter::Off });
    assert!(off.log(&Record::new(Level::Error, "t", "m"), now()).is_none());
}

fn opened() -> Result<(), std::io::Error> {
    Ok(())
}

#[test]
fn the_file_sink_writes_every_record_plain() {
    let sink = match File::new(Logger { filter: LevelFilter::Error }, "app.log", opened()) {
        Ok(sink) => sink,
        Err(_) => panic!("the file was opened"),
    };
    assert!(!sink.enabled(&Record::new(Level::Trace, "t", "m").metadata));
    assert!(sink.enabled(&Record::new(Level::Error, "t", "m").metadata));
    // Below the threshold, and written all the same.
    let text = sink.log(&Record::new(Level::Trace, "t", "m"), now()).expect("a line");
    assert!(text.ends_with(" TRACE t m\n"));
    assert!(!text.contains('\x1b'));
    assert_eq!(text.matches('\n').count(), 1);
    let line = sink.log(&Record::new(Level::Info, "t", "m"), now()).expect("a line");
    let (_, rest) = split_stamped(&line);
    assert_eq!(rest, " INFO  t m\n");
}

#[test]
fn lines_of_two_writers_stay_whole() {
    let first = match File::new(Logger { filter: LevelFilter::Trace }, "shared.log", opened()) {
        Ok(sink) => sink,
        Err(_) => panic!("the file was opened"),
    };
    let second = match File::new(Logger { filter: LevelFilter::Trace }, "shared.log", opened()) {
        Ok(sink) => sink,
        Err(_) => panic!("the file was opened"),
    };
    let mut file = String::from("kept\n");
    for i in 0..20 {
        let one = Record::new(Level::Info, "one", &format!("message {}", i));
        let two = Record::new(Level::Warn, "two", &format!("message {}", i));
        file.push_str(&first.log(&one, now()).expect("a line"));
        file.push_str(&second.log(&two, now()).expect("a line"));
    }
    let lines: Vec<&str> = file.lines().collect();
    assert_eq!(lines.len(), 41);
    assert_eq!(lines[0], "kept");
    for i in 0..20 {
        assert!(lines[1 + 2 * i].ends_with(&format!(" INFO  one message {}", i)));
        assert!(lines[2 + 2 * i].ends_with(&format!(" WARN  two message {}", i)));
    }
}

#[test]
fn a_moment_is_shown_as_chrono_shows_it() {
    let theirs = chrono::Local::now();
    let moment = Moment {
        secs: theirs.timestamp(),
        nanos: theirs.timestamp_subsec_nanos(),
        offset: theirs.offset().local_minus_utc(),
    };
    assert_eq!(stamp_of(moment), Some(theirs.format(LAYOUT).to_string()));
}

#[test]
fn timestamps_of_given_moments() {
    let at = |secs, nanos, offset| stamp_of(Moment { secs, nanos, offset });
    assert_eq!(at(0, 0, 0).as_deref(), Some("Jan 01 1970 12:00:00.000000 AM"));
    assert_eq!(at(1_793_150_625, 678_000, 0).as_deref(), Some("Oct 28 2026 01:23:45.000678 AM"));
    assert_eq!(at(1_793_150_625, 678_999, 3_600).as_deref(), Some("Oct 28 2026 02:23:45.000678 AM"));
    assert_eq!(
        at(1_793_150_625, 999_999_999, -12 * 3_600).as_deref(),
        Some("Oct 27 2026 01:23:45.999999 PM")
    );
    assert_eq!(
        at(253_402_300_799, 999_999_999, 0).as_deref(),
        Some("Dec 31 9999 11:59:59.999999 PM")
    );
    assert_eq!(at(951_825_600, 0, 0).as_deref(), Some("Feb 29 2000 12:00:00.000000 PM"));
}

#[test]
fn every_plain_moment_at_the_edges_has_a_timestamp() {
    for secs in [0, 1, 86_399, 86_400, 1_793_150_625, 253_402_300_799] {
        for nanos in [0, 1, 999_999_999] {
            for offset in [-86_399, -3_600, 0, 1, 19_800, 86_399] {
                let stamp = stamp_of(Moment { secs, nanos, offset }).expect("a timestamp");
                assert!(stamp.len() >= 30);
                assert!(NaiveDateTime::parse_from_str(&stamp, LAYOUT).is_ok() || stamp.contains('+'));
                assert!(!stamp.contains('\n'));
            }
        }
    }
}

#[test]
fn years_of_more_than_four_digits_carry_a_sign() {
    let at = |secs, nanos, offset| stamp_of(Moment { secs, nanos, offset });
    assert_eq!(at(253_402_300_800, 0, 0).as_deref(), Some("Jan 01 +10000 12:00:00.000000 AM"));
    assert_eq!(at(253_402_300_799, 0, 1).as_deref(), Some("Jan 01 +10000 12:00:00.000000 AM"));
    assert_eq!(at(-1, 0, 0).as_deref(), Some("Dec 31 1969 11:59:59.000000 PM"));
    assert_eq!(at(-62_167_219_201, 0, 0).as_deref(), Some("Dec 31 -0001 11:59:59.000000 PM"));
}

#[test]
fn a_moment_without_a_timestamp_writes_nothing() {
    let record = Record::new(Level::Error, "t", "m");
    let none = [
        Moment { secs: 0, nanos: 2_000_000_000, offset: 0 },
        Moment { secs: 0, nanos: 1_000_000_000, offset: 0 },
        Moment { secs: 0, nanos: 0, offset: 86_400 },
        Moment { secs: 0, nanos: 0, offset: -86_400 },
        Moment { secs: i64::MAX, nanos: 0, offset: 0 },
        Moment { secs: i64::MIN, nanos: 0, offset: 0 },
    ];
    for moment in none {
        let mut out = String::from("kept\n");
        assert!(!write_record(&mut out, &record, true, moment));
        assert_eq!(out, "kept\n");
        assert!(Stderr::new(Logger { filter: LevelFilter::Trace }).log(&record, moment).is_none());
        assert!(Stdout::new(Logger { filter: LevelFilter::Trace }).log(&record, moment).is_none());
        let file = match File::new(Logger { filter: LevelFilter::Trace }, "a.log", Ok(())) {
            Ok(sink) => sink,
            Err(_) => panic!("the file was opened"),
        };
        assert!(file.log(&record, moment).is_none());
    }
}

#[test]
fn a_line_is_written_where_there_is_a_timestamp() {
    let record = Record::new(Level::Warn, "t", "m");
    let mut out = String::from("kept\n");
    assert!(write_stamped(&mut out, &Some(String::from(STAMP)), &record, false));
    assert_eq!(out, format!("kept\n{} WARN  t m\n", STAMP));
    assert!(!write_stamped(&mut out, &None, &record, false));
    assert_eq!(out, format!("kept\n{} WARN  t m\n", STAMP));
}

#[test]
fn a_sink_stamps_its_line_with_the_moment() {
    let moment = Moment { secs: 1_793_150_625, nanos: 678_000, offset: 3_600 };
    let record = Record::new(Level::Info, "app::db", "connected");
    let file = match File::new(Logger { filter: LevelFilter::Off }, "a.log", Ok(())) {
        Ok(sink) => sink,
        Err(_) => panic!("the file was opened"),
    };
    assert_eq!(
        file.log(&record, moment).as_deref(),
        Some("Oct 28 2026 02:23:45.000678 AM INFO  app::db connected\n")
    );
    let stderr = Stderr::new(Logger { filter: LevelFilter::Info });
    assert_eq!(
        stderr.log(&record, moment).as_deref(),
        Some(
            "\x1b[38;2;105;105;105mOct 28 2026 02:23:45.000678 AM\x1b[39m \
             \x1b[38;2;70;130;180mINFO \x1b[0m \x1b[38;2;060;179;113mapp::db\x1b[39m connected\n"
        )
    );
    let stdout = Stdout::new(Logger { filter: LevelFilter::Info });
    assert_eq!(stdout.log(&record, moment), stderr.log(&record, moment));
}
