//! Severities, thresholds and the records that the sinks receive.
//!
//! A logging front-end has types of its own for these. The sinks work on the
//! plain values below, so that what they decide can be stated over them.

use vstd::prelude::*;

verus! {

/// How important a record is, from the most severe to the least.
#[derive(Clone, Copy, Debug, PartialEq, Eq, Structural)]
pub enum Level {
    Error,
    Warn,
    Info,
    Debug,
    Trace,
}

/// The threshold of a sink: the least severe level it still delivers, or
/// `Off` for none at all.
#[derive(Clone, Copy, Debug, PartialEq, Eq, Structural)]
pub enum LevelFilter {
    Off,
    Error,
    Warn,
    Info,
    Debug,
    Trace,
}

/// The text `s` brought to exactly `width` characters: cut where it is
/// longer, filled with spaces on the right where it is shorter.
pub open spec fn fit(s: Seq<char>, width: nat) -> Seq<char> {
    if s.len() >= width {
        s.subrange(0, width as int)
    } else {
        s + Seq::new((width - s.len()) as nat, |i: int| ' ')
    }
}

impl Level {
    /// The place of the level in the order of severity: 1 for `Error`, the
    /// most severe, up to 5 for `Trace`. A smaller rank is more severe.
    pub open spec fn spec_rank(self) -> nat {
        match self {
            Level::Error => 1,
            Level::Warn => 2,
            Level::Info => 3,
            Level::Debug => 4,
            Level::Trace => 5,
        }
    }

    /// The name of the level in capitals.
    pub open spec fn spec_name(self) -> Seq<char> {
        match self {
            Level::Error => "ERROR"@,
            Level::Warn => "WARN"@,
            Level::Info => "INFO"@,
            Level::Debug => "DEBUG"@,
            Level::Trace => "TRACE"@,
        }
    }

    /// `self` is at least as severe as `other`.
    pub open spec fn at_least_as_severe_as(self, other: Level) -> bool {
        self.spec_rank() <= other.spec_rank()
    }

    pub fn rank(self) -> (r: u8)
        ensures
            r == self.spec_rank(),
    {
        match self {
            Level::Error => 1,
            Level::Warn => 2,
            Level::Info => 3,
            Level::Debug => 4,
            Level::Trace => 5,
        }
    }

    /// The name in a field of five characters, as a line shows it.
    pub fn label(self) -> (r: &'static str)
        ensures
            r@ == fit(self.spec_name(), 5),
            r@.len() == 5,
    {
        proof {
            reveal_strlit("ERROR");
            reveal_strlit("WARN");
            reveal_strlit("WARN ");
            reveal_strlit("INFO");
            reveal_strlit("INFO ");
            reveal_strlit("DEBUG");
            reveal_strlit("TRACE");
        }
        let r = match self {
            Level::Error => "ERROR",
            Level::Warn => "WARN ",
            Level::Info => "INFO ",
            Level::Debug => "DEBUG",
            Level::Trace => "TRACE",
        };
        assert(r@ =~= fit(self.spec_name(), 5));
        r
    }
}

impl LevelFilter {
    /// The rank of the least severe level that passes: 0 for `Off`, below
    /// every level, up to 5 for `Trace`.
    pub open spec fn spec_rank(self) -> nat {
        match self {
            LevelFilter::Off => 0,
            LevelFilter::Error => 1,
            LevelFilter::Warn => 2,
            LevelFilter::Info => 3,
            LevelFilter::Debug => 4,
            LevelFilter::Trace => 5,
        }
    }

    /// The threshold lets records of `level` pass: the level is at least as
    /// severe as the threshold.
    pub open spec fn permits(self, level: Level) -> bool {
        level.spec_rank() <= self.spec_rank()
    }

    pub fn rank(self) -> (r: u8)
        ensures
            r == self.spec_rank(),
    {
        match self {
            LevelFilter::Off => 0,
            LevelFilter::Error => 1,
            LevelFilter::Warn => 2,
            LevelFilter::Info => 3,
            LevelFilter::Debug => 4,
            LevelFilter::Trace => 5,
        }
    }

    /// The most verbose threshold.
    pub fn max() -> (r: LevelFilter)
        ensures
            r == LevelFilter::Trace,
            forall|level: Level| r.permits(level),
    {
        LevelFilter::Trace
    }
}

/// What a sink needs to know to decide whether a record is wanted.
pub struct Metadata {
    pub level: Level,
    pub target: String,
}

/// One record: its metadata and its message, already rendered as text.
pub struct Record {
    pub metadata: Metadata,
    pub message: String,
}

/// A record as plain values.
pub struct RecordView {
    pub level: Level,
    pub target: Seq<char>,
    pub message: Seq<char>,
}

impl View for Record {
    type V = RecordView;

    open spec fn view(&self) -> RecordView {
        RecordView {
            level: self.metadata.level,
            target: self.metadata.target@,
            message: self.message@,
        }
    }
}

impl Record {
    pub fn new(level: Level, target: &str, message: &str) -> (r: Record)
        ensures
            r@ == (RecordView { level, target: target@, message: message@ }),
    {
        Record {
            metadata: Metadata { level, target: target.to_owned() },
            message: message.to_owned(),
        }
    }
}

} // verus!
