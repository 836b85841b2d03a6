//! The line that stands for a record, and the sinks that deliver lines:
//! standard error, standard output, and a file.

use chrono::{DateTime, FixedOffset};
use vstd::prelude::*;

use crate::level::{Level, LevelFilter, Metadata, Record, RecordView};
use crate::tint::{
    blue_violet, blue_violet_of, dim_gray, dim_gray_of, medium_sea_green, medium_sea_green_of,
    orange_red, orange_red_of, plum, plum_of, steel_blue, steel_blue_of, yellow, yellow_of,
};
use crate::{Error, Logger};

verus! {

/// The timestamp of a line as it is shown.
pub open spec fn shown_timestamp(timestamp: Seq<char>, tinted: bool) -> Seq<char> {
    if tinted {
        dim_gray_of(timestamp)
    } else {
        timestamp
    }
}

/// The level of a line as it is shown: its name in a field of five
/// characters, in the color of the level where the line is tinted.
pub open spec fn shown_level(level: Level, tinted: bool) -> Seq<char> {
    let field = crate::level::fit(level.spec_name(), 5);
    if tinted {
        match level {
            Level::Error => orange_red_of(field),
            Level::Warn => yellow_of(field),
            Level::Info => steel_blue_of(field),
            Level::Debug => plum_of(field),
            Level::Trace => blue_violet_of(field),
        }
    } else {
        field
    }
}

/// The target of a line as it is shown.
pub open spec fn shown_target(target: Seq<char>, tinted: bool) -> Seq<char> {
    if tinted {
        medium_sea_green_of(target)
    } else {
        target
    }
}

/// The line for a record: timestamp, level, target and message in this
/// order, one space between each two, and a line feed at the end. The message
/// stands as it is.
pub open spec fn line(timestamp: Seq<char>, record: RecordView, tinted: bool) -> Seq<char> {
    shown_timestamp(timestamp, tinted) + seq![' '] + shown_level(record.level, tinted) + seq![' ']
        + shown_target(record.target, tinted) + seq![' '] + record.message + seq!['\n']
}

/// The layout of a timestamp: month by its short name, day, year, the time
/// on the clock of twelve hours with microseconds, and the half of the day.
pub open spec fn timestamp_layout() -> Seq<char> {
    "%b %d %Y %I:%M:%S%.6f %p"@
}

/// A decimal digit.
pub open spec fn is_digit(c: char) -> bool {
    '0' <= c <= '9'
}

/// A text of decimal digits only.
pub open spec fn all_digits(text: Seq<char>) -> bool {
    forall|i: int| 0 <= i < text.len() ==> is_digit(#[trigger] text[i])
}

/// The short name of a month.
pub open spec fn is_month(text: Seq<char>) -> bool {
    ||| text == "Jan"@
    ||| text == "Feb"@
    ||| text == "Mar"@
    ||| text == "Apr"@
    ||| text == "May"@
    ||| text == "Jun"@
    ||| text == "Jul"@
    ||| text == "Aug"@
    ||| text == "Sep"@
    ||| text == "Oct"@
    ||| text == "Nov"@
    ||| text == "Dec"@
}

/// A year: four digits, or a sign and four digits or more for a year before
/// 0 or after 9999.
pub open spec fn is_year(text: Seq<char>) -> bool {
    ||| text.len() == 4 && all_digits(text)
    ||| text.len() >= 5 && (text[0] == '+' || text[0] == '-') && all_digits(
        text.subrange(1, text.len() as int),
    )
}

/// A time of day: hour, minute and second in two digits each with colons
/// between, a dot, six digits of microseconds, a space, and `AM` or `PM`.
pub open spec fn is_clock(text: Seq<char>) -> bool {
    &&& text.len() == 18
    &&& is_digit(text[0]) && is_digit(text[1]) && text[2] == ':'
    &&& is_digit(text[3]) && is_digit(text[4]) && text[5] == ':'
    &&& is_digit(text[6]) && is_digit(text[7]) && text[8] == '.'
    &&& all_digits(text.subrange(9, 15))
    &&& text[15] == ' ' && (text[16] == 'A' || text[16] == 'P') && text[17] == 'M'
}

/// A timestamp in the layout of the lines: month, day in two digits, year
/// and time of day, one space between each two.
pub open spec fn is_timestamp(text: Seq<char>) -> bool {
    &&& text.len() >= 30
    &&& is_month(text.subrange(0, 3))
    &&& text[3] == ' '
    &&& is_digit(text[4]) && is_digit(text[5])
    &&& text[6] == ' '
    &&& is_year(text.subrange(7, text.len() - 19))
    &&& text[text.len() - 19] == ' '
    &&& is_clock(text.subrange(text.len() - 18, text.len() as int))
}

/// A moment: the seconds and nanoseconds that have passed since the start
/// of 1970 in universal time, and how many seconds local time is ahead of
/// universal time.
#[derive(Clone, Copy, Debug, PartialEq, Eq, Structural)]
pub struct Moment {
    pub secs: i64,
    pub nanos: u32,
    pub offset: i32,
}

impl Moment {
    /// A moment of the years 1970 to 9999, with less than a second of
    /// nanoseconds and local time less than a day from universal time. Every
    /// such moment has a timestamp.
    pub open spec fn plain(self) -> bool {
        &&& 0 <= self.secs < 253_402_300_800
        &&& self.nanos < 1_000_000_000
        &&& -86_400 < self.offset < 86_400
    }
}

/// What `chrono` shows for a moment in a layout: the local date and time of
/// the moment as text, or nothing where `chrono` has no date for the
/// seconds, no time for the nanoseconds or no zone for the offset.
pub uninterp spec fn rendered_time(secs: i64, nanos: u32, offset: i32, layout: Seq<char>) -> Option<
    Seq<char>,
>;

/// The timestamp of a moment, where it has one.
pub open spec fn timestamp_of(now: Moment) -> Option<Seq<char>> {
    rendered_time(now.secs, now.nanos, now.offset, timestamp_layout())
}

/// `chrono::DateTime::from_timestamp` and `FixedOffset::east_opt`, then
/// `DateTime::with_timezone` and `DateTime::format` with `layout`, displayed.
/// The text depends on the four arguments alone. Its shape is that of the
/// layout, item by item as `chrono` documents them: the month in three
/// letters, the day, hour, minute and second in two digits, the year in four
/// digits or with a sign, the microseconds in six digits after a dot, and
/// `AM` or `PM`. `from_timestamp` gives a date and time for every second of
/// the years 1970 to 9999 with less than a second of nanoseconds, and
/// `east_opt` a zone for every offset of less than a day.
#[verifier::external_body]
fn render_time(secs: i64, nanos: u32, offset: i32, layout: &str) -> (r: Option<String>)
    requires
        layout@ == timestamp_layout(),
    ensures
        r matches Some(text) ==> rendered_time(secs, nanos, offset, layout@) == Some(text@)
            && is_timestamp(text@),
        r is None ==> rendered_time(secs, nanos, offset, layout@) is None,
        0 <= secs < 253_402_300_800 && nanos < 1_000_000_000 && -86_400 < offset < 86_400
            ==> r is Some,
{
    let zone = FixedOffset::east_opt(offset)?;
    let utc = DateTime::from_timestamp(secs, nanos)?;
    Some(utc.with_timezone(&zone).format(layout).to_string())
}

/// Appends to `writer` the line for `record` with the given timestamp.
pub fn write_line(writer: &mut String, timestamp: &str, record: &Record, tinted: bool)
    ensures
        final(writer)@ == old(writer)@ + line(timestamp@, record@, tinted),
{
    proof {
        reveal_strlit(" ");
        reveal_strlit("\n");
        assert(" "@ =~= seq![' ']);
        assert("\n"@ =~= seq!['\n']);
    }
    let label = record.metadata.level.label();
    let target = record.metadata.target.as_str();
    if tinted {
        let shown = dim_gray(timestamp);
        writer.append(shown.as_str());
    } else {
        writer.append(timestamp);
    }
    writer.append(" ");
    if tinted {
        let shown = match record.metadata.level {
            Level::Error => orange_red(label),
            Level::Warn => yellow(label),
            Level::Info => steel_blue(label),
            Level::Debug => plum(label),
            Level::Trace => blue_violet(label),
        };
        writer.append(shown.as_str());
    } else {
        writer.append(label);
    }
    writer.append(" ");
    if tinted {
        let shown = medium_sea_green(target);
        writer.append(shown.as_str());
    } else {
        writer.append(target);
    }
    writer.append(" ");
    writer.append(record.message.as_str());
    writer.append("\n");
    assert(writer@ =~= old(writer)@ + line(timestamp@, record@, tinted));
}

/// Appends to `writer` the line for `record` where there is a timestamp for
/// it, and says whether there was one. Without a timestamp nothing is
/// written.
pub fn write_stamped(
    writer: &mut String,
    timestamp: &Option<String>,
    record: &Record,
    tinted: bool,
) -> (written: bool)
    ensures
        written == timestamp is Some,
        timestamp matches Some(text) ==> final(writer)@ == old(writer)@ + line(
            text@,
            record@,
            tinted,
        ),
        timestamp is None ==> final(writer)@ == old(writer)@,
{
    match timestamp {
        Some(text) => {
            write_line(writer, text.as_str(), record, tinted);
            true
        },
        None => false,
    }
}

/// Appends to `writer` the line for `record`, stamped with the local time of
/// the moment `now`, and says whether it did. A moment that has no timestamp
/// leaves the writer as it is; a moment of the years 1970 to 9999 has one.
pub fn write_record(writer: &mut String, record: &Record, tinted: bool, now: Moment) -> (written:
    bool)
    ensures
        written == timestamp_of(now) is Some,
        now.plain() ==> written,
        timestamp_of(now) matches Some(timestamp) ==> is_timestamp(timestamp) && final(writer)@
            == old(writer)@ + line(timestamp, record@, tinted),
        timestamp_of(now) is None ==> final(writer)@ == old(writer)@,
{
    let timestamp = render_time(now.secs, now.nanos, now.offset, "%b %d %Y %I:%M:%S%.6f %p");
    write_stamped(writer, &timestamp, record, tinted)
}

/// The sink for standard error. Its lines are tinted.
pub struct Stderr {
    inner: Logger,
}

impl Stderr {
    /// The threshold of the sink.
    pub closed spec fn filter(&self) -> LevelFilter {
        self.inner.filter
    }

    pub fn new(logger: Logger) -> (r: Stderr)
        ensures
            r.filter() == logger.filter,
    {
        Stderr { inner: logger }
    }

    pub fn enabled(&self, metadata: &Metadata) -> (r: bool)
        ensures
            r == self.filter().permits(metadata.level),
    {
        self.inner.enabled(metadata)
    }

    /// Decides what is written for a record at the moment `now`: nothing
    /// where the threshold does not let it pass, else its line, tinted and
    /// stamped with the local time of the moment. A moment that has no
    /// timestamp gives nothing either; a moment of the years 1970 to 9999
    /// has one.
    pub fn log(&self, record: &Record, now: Moment) -> (r: Option<String>)
        ensures
            r is Some <==> self.filter().permits(record@.level) && timestamp_of(now) is Some,
            self.filter().permits(record@.level) && now.plain() ==> r is Some,
            r matches Some(text) ==> timestamp_of(now) matches Some(timestamp) && is_timestamp(
                timestamp,
            ) && text@ == line(timestamp, record@, true),
    {
        if self.inner.enabled(&record.metadata) {
            let mut text = String::new();
            if write_record(&mut text, record, true, now) {
                Some(text)
            } else {
                None
            }
        } else {
            None
        }
    }
}

/// The sink for standard output. Its lines are tinted.
pub struct Stdout {
    inner: Logger,
}

impl Stdout {
    /// The threshold of the sink.
    pub closed spec fn filter(&self) -> LevelFilter {
        self.inner.filter
    }

    pub fn new(logger: Logger) -> (r: Stdout)
        ensures
            r.filter() == logger.filter,
    {
        Stdout { inner: logger }
    }

    pub fn enabled(&self, metadata: &Metadata) -> (r: bool)
        ensures
            r == self.filter().permits(metadata.level),
    {
        self.inner.enabled(metadata)
    }

    /// Decides what is written for a record at the moment `now`: nothing
    /// where the threshold does not let it pass, else its line, tinted and
    /// stamped with the local time of the moment. A moment that has no
    /// timestamp gives nothing either; a moment of the years 1970 to 9999
    /// has one.
    pub fn log(&self, record: &Record, now: Moment) -> (r: Option<String>)
        ensures
            r is Some <==> self.filter().permits(record@.level) && timestamp_of(now) is Some,
            self.filter().permits(record@.level) && now.plain() ==> r is Some,
            r matches Some(text) ==> timestamp_of(now) matches Some(timestamp) && is_timestamp(
                timestamp,
            ) && text@ == line(timestamp, record@, true),
    {
        if self.inner.enabled(&record.metadata) {
            let mut text = String::new();
            if write_record(&mut text, record, true, now) {
                Some(text)
            } else {
                None
            }
        } else {
            None
        }
    }
}

/// The sink for a file that is appended to. Its lines are plain.
pub struct File {
    inner: Logger,
}

impl File {
    /// The threshold of the sink.
    pub closed spec fn filter(&self) -> LevelFilter {
        self.inner.filter
    }

    /// Sets up the sink for the file at the path `file`, given how opening
    /// that file for appending went. Where it failed there is no sink, and
    /// the error names the path and holds the cause.
    pub fn new(logger: Logger, file: &str, opened: Result<(), std::io::Error>) -> (r: Result<
        File,
        Error,
    >)
        ensures
            r is Ok <==> opened is Ok,
            r matches Ok(sink) ==> sink.filter() == logger.filter,
            r matches Err(error) ==> error matches Error::Io { path, source } && path@ == file@
                && opened == Err::<(), std::io::Error>(source),
    {
        match opened {
            Ok(()) => Ok(File { inner: logger }),
            Err(source) => Err(Error::Io { path: file.to_owned(), source }),
        }
    }

    pub fn enabled(&self, metadata: &Metadata) -> (r: bool)
        ensures
            r == self.filter().permits(metadata.level),
    {
        self.inner.enabled(metadata)
    }

    /// The line to append for a record at the moment `now`, plain and
    /// stamped with the local time of the moment. The threshold is not asked:
    /// every record that reaches this sink is written, whatever its level.
    /// Only a moment that has no timestamp gives nothing; a moment of the
    /// years 1970 to 9999 has one.
    pub fn log(&self, record: &Record, now: Moment) -> (r: Option<String>)
        ensures
            r is Some <==> timestamp_of(now) is Some,
            now.plain() ==> r is Some,
            r matches Some(text) ==> timestamp_of(now) matches Some(timestamp) && is_timestamp(
                timestamp,
            ) && text@ == line(timestamp, record@, false),
    {
        let mut text = String::new();
        if write_record(&mut text, record, false, now) {
            Some(text)
        } else {
            None
        }
    }
}

/// The layout of a line, whatever the record holds: the four fields stand in
/// the order timestamp, level, target, message, each where the one before it
/// and one space end, and the line ends with the line feed after the message.
pub proof fn lemma_line_layout(timestamp: Seq<char>, record: RecordView, tinted: bool)
    ensures
        ({
            let first = shown_timestamp(timestamp, tinted);
            let second = shown_level(record.level, tinted);
            let third = shown_target(record.target, tinted);
            let text = line(timestamp, record, tinted);
            let at_second: int = first.len() as int + 1;
            let at_third: int = at_second + second.len() + 1;
            let at_message: int = at_third + third.len() + 1;
            &&& text.len() == at_message + record.message.len() + 1
            &&& text.subrange(0, first.len() as int) == first
            &&& text[at_second - 1] == ' '
            &&& text.subrange(at_second, at_second + second.len()) == second
            &&& text[at_third - 1] == ' '
            &&& text.subrange(at_third, at_third + third.len()) == third
            &&& text[at_message - 1] == ' '
            &&& text.subrange(at_message, text.len() - 1) == record.message
            &&& text.last() == '\n'
        }),
{
    let first = shown_timestamp(timestamp, tinted);
    let second = shown_level(record.level, tinted);
    let third = shown_target(record.target, tinted);
    let text = line(timestamp, record, tinted);
    let at_second: int = first.len() as int + 1;
    let at_third: int = at_second + second.len() + 1;
    let at_message: int = at_third + third.len() + 1;
    assert(text.subrange(0, first.len() as int) =~= first);
    assert(text.subrange(at_second, at_second + second.len()) =~= second);
    assert(text.subrange(at_third, at_third + third.len()) =~= third);
    assert(text.subrange(at_message, text.len() - 1) =~= record.message);
}

/// In a plain line the fields stand as they are, and the level takes five
/// characters.
pub proof fn lemma_plain_line(timestamp: Seq<char>, record: RecordView)
    ensures
        shown_timestamp(timestamp, false) == timestamp,
        shown_level(record.level, false).len() == 5,
        shown_level(record.level, false).subrange(0, record.level.spec_name().len() as int)
            == record.level.spec_name(),
        shown_target(record.target, false) == record.target,
        line(timestamp, record, false).len() == timestamp.len() + record.target.len()
            + record.message.len() + 9,
{
    reveal_strlit("ERROR");
    reveal_strlit("WARN");
    reveal_strlit("INFO");
    reveal_strlit("DEBUG");
    reveal_strlit("TRACE");
    let name = record.level.spec_name();
    assert(shown_level(record.level, false).subrange(0, name.len() as int) =~= name);
}

/// No field of a record is shown with a line feed that it does not hold.
proof fn lemma_shown_without_line_feed(timestamp: Seq<char>, record: RecordView, tinted: bool)
    requires
        !timestamp.contains('\n'),
        !record.target.contains('\n'),
    ensures
        !shown_timestamp(timestamp, tinted).contains('\n'),
        !shown_level(record.level, tinted).contains('\n'),
        !shown_target(record.target, tinted).contains('\n'),
{
    reveal_strlit("ERROR");
    reveal_strlit("WARN");
    reveal_strlit("INFO");
    reveal_strlit("DEBUG");
    reveal_strlit("TRACE");
    reveal_strlit("\x1b[38;2;105;105;105m");
    reveal_strlit("\x1b[38;2;060;179;113m");
    reveal_strlit("\x1b[38;2;255;69;0m");
    reveal_strlit("\x1b[38;2;255;255;0m");
    reveal_strlit("\x1b[38;2;70;130;180m");
    reveal_strlit("\x1b[38;2;221;160;221m");
    reveal_strlit("\x1b[38;2;138;43;226m");
    reveal_strlit("\x1b[39m");
    reveal_strlit("\x1b[0m");
    let first = shown_timestamp(timestamp, tinted);
    assert forall|i: int| 0 <= i < first.len() implies first[i] != '\n' by {
        if tinted {
            let head = "\x1b[38;2;105;105;105m"@;
            if i >= head.len() && i < head.len() + timestamp.len() {
                assert(first[i] == timestamp[i - head.len()]);
            }
        }
    }
    let third = shown_target(record.target, tinted);
    assert forall|i: int| 0 <= i < third.len() implies third[i] != '\n' by {
        if tinted {
            let head = "\x1b[38;2;060;179;113m"@;
            if i >= head.len() && i < head.len() + record.target.len() {
                assert(third[i] == record.target[i - head.len()]);
            }
        }
    }
    let second = shown_level(record.level, tinted);
    assert forall|i: int| 0 <= i < second.len() implies second[i] != '\n' by {}
}

/// A record whose target and message hold no line feed, stamped with a time
/// that holds none, gives exactly one line: the only line feed is the last
/// character.
pub proof fn lemma_one_line(timestamp: Seq<char>, record: RecordView, tinted: bool)
    requires
        !timestamp.contains('\n'),
        !record.target.contains('\n'),
        !record.message.contains('\n'),
    ensures
        forall|i: int|
            0 <= i < line(timestamp, record, tinted).len() ==> (line(timestamp, record, tinted)[i]
                == '\n' <==> i == line(timestamp, record, tinted).len() - 1),
{
    lemma_shown_without_line_feed(timestamp, record, tinted);
    lemma_line_layout(timestamp, record, tinted);
    let first = shown_timestamp(timestamp, tinted);
    let second = shown_level(record.level, tinted);
    let third = shown_target(record.target, tinted);
    let text = line(timestamp, record, tinted);
    let at_second: int = first.len() as int + 1;
    let at_third: int = at_second + second.len() + 1;
    let at_message: int = at_third + third.len() + 1;
    assert forall|i: int| 0 <= i < text.len() - 1 implies text[i] != '\n' by {
        if i < first.len() {
            assert(text[i] == first[i]);
        } else if at_second <= i < at_second + second.len() {
            assert(text[i] == second[i - at_second]);
        } else if at_third <= i < at_third + third.len() {
            assert(text[i] == third[i - at_third]);
        } else if at_message <= i {
            assert(text[i] == record.message[i - at_message]);
        }
    }
}

/// A timestamp in the layout of the lines holds no line feed.
pub proof fn lemma_timestamp_without_line_feed(timestamp: Seq<char>)
    requires
        is_timestamp(timestamp),
    ensures
        !timestamp.contains('\n'),
{
    reveal_strlit("Jan");
    reveal_strlit("Feb");
    reveal_strlit("Mar");
    reveal_strlit("Apr");
    reveal_strlit("May");
    reveal_strlit("Jun");
    reveal_strlit("Jul");
    reveal_strlit("Aug");
    reveal_strlit("Sep");
    reveal_strlit("Oct");
    reveal_strlit("Nov");
    reveal_strlit("Dec");
    let month = timestamp.subrange(0, 3);
    let year = timestamp.subrange(7, timestamp.len() - 19);
    let clock = timestamp.subrange(timestamp.len() - 18, timestamp.len() as int);
    let micros = clock.subrange(9, 15);
    assert forall|i: int| 0 <= i < timestamp.len() implies timestamp[i] != '\n' by {
        if i < 3 {
            assert(timestamp[i] == month[i]);
        } else if 7 <= i < timestamp.len() - 19 {
            assert(timestamp[i] == year[i - 7]);
            if year.len() != 4 && i > 7 {
                assert(year[i - 7] == year.subrange(1, year.len() as int)[i - 8]);
            }
        } else if i >= timestamp.len() - 18 {
            let at = i - (timestamp.len() - 18);
            assert(timestamp[i] == clock[at]);
            if 9 <= at < 15 {
                assert(clock[at] == micros[at - 9]);
            }
        }
    }
}

} // verus!
