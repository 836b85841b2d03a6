//! The destination of a configuration as one word of text, for
//! configuration files.
//!
//! `stderr`, `stdout` and `syslog` name the three destinations that need
//! nothing more; any other text is the path of a file. The system log keeps
//! no settings in this form: it is written as `syslog` whatever its
//! registration, and read back with the default one.

use vstd::prelude::*;

use crate::syslog::{default_config, Config};
use crate::{Sink, SinkView};

verus! {

/// The text that stands for a destination.
pub open spec fn text_of(sink: SinkView) -> Seq<char> {
    match sink {
        SinkView::Stderr => "stderr"@,
        SinkView::Stdout => "stdout"@,
        SinkView::Syslog(_) => "syslog"@,
        SinkView::File(path) => path,
    }
}

/// The destination that a text stands for.
pub open spec fn parse(text: Seq<char>) -> SinkView {
    if text == "stderr"@ {
        SinkView::Stderr
    } else if text == "stdout"@ {
        SinkView::Stdout
    } else if text == "syslog"@ {
        SinkView::Syslog(default_config())
    } else {
        SinkView::File(text)
    }
}

/// A text that names one of the three destinations without a path.
pub open spec fn reserved(text: Seq<char>) -> bool {
    text == "stderr"@ || text == "stdout"@ || text == "syslog"@
}

impl Sink {
    /// Writes the destination as text.
    pub fn serialize(&self) -> (r: String)
        ensures
            r@ == text_of(self@),
    {
        match self {
            Sink::Stderr => "stderr".to_owned(),
            Sink::Stdout => "stdout".to_owned(),
            Sink::Syslog(_) => "syslog".to_owned(),
            Sink::File(path) => path.clone(),
        }
    }

    /// Reads a destination from text. Every text is one.
    pub fn deserialize(value: &str) -> (r: Sink)
        ensures
            r@ == parse(value@),
    {
        let text = value.to_owned();
        if text == "stderr".to_owned() {
            Sink::Stderr
        } else if text == "stdout".to_owned() {
            Sink::Stdout
        } else if text == "syslog".to_owned() {
            Sink::Syslog(Config::default())
        } else {
            Sink::File(text)
        }
    }
}

/// The three names differ from each other.
proof fn lemma_names_differ()
    ensures
        "stderr"@ != "stdout"@,
        "stderr"@ != "syslog"@,
        "stdout"@ != "syslog"@,
{
    reveal_strlit("stderr");
    reveal_strlit("stdout");
    reveal_strlit("syslog");
    assert("stderr"@[2] == 'd');
    assert("stdout"@[3] == 'o');
    assert("syslog"@[1] == 'y');
}

/// Reading a text and writing the destination again gives the text back,
/// whatever the text.
pub proof fn lemma_text_survives(text: Seq<char>)
    ensures
        text_of(parse(text)) == text,
{
}

/// Writing a destination and reading the text again gives the destination
/// back, with two exceptions: the system log comes back with the default
/// registration, and a file whose path is one of the three names comes back
/// as the destination of that name.
pub proof fn lemma_destination_survives(sink: SinkView)
    ensures
        sink is Stderr || sink is Stdout ==> parse(text_of(sink)) == sink,
        sink is Syslog ==> parse(text_of(sink)) == SinkView::Syslog(default_config()),
        sink matches SinkView::File(path) ==> parse(text_of(sink)) == (if reserved(path) {
            parse(path)
        } else {
            sink
        }),
{
    lemma_names_differ();
}

} // verus!
