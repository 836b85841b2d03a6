//! Sinks for log records: standard error, standard output, a file that is
//! appended to, and the system log.
//!
//! Every sink decides here what is delivered for a record. Reading the
//! clock and writing out what was decided are left to the caller.

use vstd::prelude::*;

mod codes;
pub mod file;
pub mod level;
pub mod selector;
pub mod syslog;
mod tint;

use crate::level::{Level, LevelFilter, Metadata};
use crate::syslog::ConfigView;

verus! {

/// What every sink shares: it holds the threshold and says which records
/// pass.
pub struct Logger {
    pub filter: LevelFilter,
}

impl Logger {
    /// A record passes when its level is at least as severe as the threshold.
    pub fn enabled(&self, metadata: &Metadata) -> (r: bool)
        ensures
            r == self.filter.permits(metadata.level),
    {
        metadata.level.rank() <= self.filter.rank()
    }
}

/// What a threshold lets pass: nothing where it is `Off`; else the level of
/// its own name and every level more severe, and no other. So a threshold
/// that lets a level pass lets every more severe level pass, and a more
/// verbose threshold lets pass all that a less verbose one does.
pub proof fn lemma_threshold(filter: LevelFilter, level: Level, other: Level)
    ensures
        !LevelFilter::Off.permits(level),
        LevelFilter::Trace.permits(level),
        LevelFilter::Error.permits(level) <==> level == Level::Error,
        LevelFilter::Warn.permits(level) <==> level == Level::Error || level == Level::Warn,
        LevelFilter::Info.permits(level) <==> level == Level::Error || level == Level::Warn || level
            == Level::Info,
        LevelFilter::Debug.permits(level) <==> level != Level::Trace,
        filter.permits(level) && other.at_least_as_severe_as(level) ==> filter.permits(other),
{
}

/// Where the records go.
#[derive(Clone, Debug)]
pub enum Sink {
    /// Standard error; the default.
    Stderr,
    /// Standard output.
    Stdout,
    /// The file at this path, which is appended to.
    File(String),
    /// The system log, with the registration to use.
    Syslog(syslog::Config),
}

/// A destination as plain values.
pub enum SinkView {
    Stderr,
    Stdout,
    File(Seq<char>),
    Syslog(ConfigView),
}

impl View for Sink {
    type V = SinkView;

    open spec fn view(&self) -> SinkView {
        match self {
            Sink::Stderr => SinkView::Stderr,
            Sink::Stdout => SinkView::Stdout,
            Sink::File(path) => SinkView::File(path@),
            Sink::Syslog(config) => SinkView::Syslog(config@),
        }
    }
}

impl Default for Sink {
    fn default() -> (r: Sink)
        ensures
            r == Sink::Stderr,
    {
        Sink::Stderr
    }
}

/// `std::io::Error`, the cause of a failed open. Nothing is known of what
/// it holds.
#[verifier::external_type_specification]
#[verifier::external_body]
pub struct ExIoError(std::io::Error);

/// `log::SetLoggerError`, with which `log` refuses a second logger. Nothing
/// is known of what it holds.
#[verifier::external_type_specification]
#[verifier::external_body]
pub struct ExSetLoggerError(log::SetLoggerError);

/// Why a sink could not be set up.
pub enum Error {
    /// The file at `path` could not be opened; `source` says why.
    Io { path: String, source: std::io::Error },
    /// The process has a logger already.
    SetLogger(log::SetLoggerError),
}

/// The text of a failure to open a file: the path, then the cause.
pub open spec fn io_text(path: Seq<char>, cause: Seq<char>) -> Seq<char> {
    path + ": "@ + cause
}

/// The text with which `log` says that the process has a logger already.
pub open spec fn set_logger_text() -> Seq<char> {
    "attempted to set a logger after the logging system was already initialized"@
}

/// `Display` of `std::io::Error`: the cause in words. The words come from
/// the operating system and its language settings, so nothing is said of
/// them.
#[verifier::external_body]
fn io_cause(source: &std::io::Error) -> (r: String) {
    format!("{}", source)
}

/// `Display` of `log::SetLoggerError`: `log` writes one fixed sentence for
/// every such error.
#[verifier::external_body]
fn set_logger_cause(error: &log::SetLoggerError) -> (r: String)
    ensures
        r@ == set_logger_text(),
{
    format!("{}", error)
}

/// Puts the text of a failure to open a file together from the path and the
/// cause in words.
pub fn io_message(path: &str, cause: &str) -> (r: String)
    ensures
        r@ == io_text(path@, cause@),
{
    let mut text = path.to_owned();
    text.append(": ");
    text.append(cause);
    text
}

impl Error {
    /// The error in words: for a file that could not be opened its path, a
    /// colon and the cause; for a second logger what `log` says of it.
    pub fn to_string(&self) -> (r: String)
        ensures
            self matches Error::Io { path, .. } ==> exists|cause: Seq<char>|
                r@ == #[trigger] io_text(path@, cause),
            self is SetLogger ==> r@ == set_logger_text(),
    {
        match self {
            Error::Io { path, source } => {
                let cause = io_cause(source);
                io_message(path.as_str(), cause.as_str())
            },
            Error::SetLogger(error) => set_logger_cause(error),
        }
    }
}

impl From<log::SetLoggerError> for Error {
    fn from(value: log::SetLoggerError) -> (r: Error)
        ensures
            r == Error::SetLogger(value),
    {
        Error::SetLogger(value)
    }
}

impl vstd::std_specs::convert::FromSpecImpl<log::SetLoggerError> for Error {
    open spec fn obeys_from_spec() -> bool {
        true
    }

    open spec fn from_spec(value: log::SetLoggerError) -> Error {
        Error::SetLogger(value)
    }
}

/// What to log and where to.
pub struct Config {
    /// The threshold: the least severe level that is still delivered.
    pub level: LevelFilter,
    /// The destination.
    pub sink: Sink,
}

impl Config {
    /// The same configuration with the threshold `filter`.
    pub fn max_level(self, filter: LevelFilter) -> (r: Config)
        ensures
            r.level == filter,
            r.sink == self.sink,
    {
        let mut config = self;
        config.level = filter;
        config
    }

    /// The same configuration with the destination `sink`.
    pub fn sink(self, sink: Sink) -> (r: Config)
        ensures
            r.level == self.level,
            r.sink == sink,
    {
        let mut config = self;
        config.sink = sink;
        config
    }
}

impl Default for Config {
    /// Everything is logged, to standard error.
    fn default() -> (r: Config)
        ensures
            r.level == LevelFilter::Trace,
            r.sink == Sink::Stderr,
    {
        Config { level: LevelFilter::max(), sink: Sink::default() }
    }
}

/// A configuration to start from: everything is logged, to standard error.
pub fn new() -> (r: Config)
    ensures
        r.level == LevelFilter::Trace,
        r.sink == Sink::Stderr,
{
    Config::default()
}

} // verus!
