//! Per-record routing of emitted records to standard output or standard
//! error, decided from the record's severity and the chosen routing mode.

use vstd::prelude::*;
use crate::level::{Level, level_severity};
use crate::options::TracingWriterMode;

verus! {

/// One of the two output streams of the process.
#[derive(Clone, Copy, PartialEq, Eq, Structural, Debug)]
pub enum Stream {
    Stdout,
    Stderr,
}

/// The stream a record of severity `l` goes to under routing mode `mode`:
/// under the split mode, warn and error go to stderr and everything else to
/// stdout; the two single-stream modes ignore the severity.
pub open spec fn spec_route(mode: TracingWriterMode, l: Level) -> Stream {
    match mode {
        TracingWriterMode::Stderr => Stream::Stderr,
        TracingWriterMode::Stdout => Stream::Stdout,
        TracingWriterMode::Stdio => if level_severity(l) >= level_severity(Level::Warn) {
            Stream::Stderr
        } else {
            Stream::Stdout
        },
    }
}

/// Decide, per record, which stream a record of severity `l` is written to.
pub fn route(mode: &TracingWriterMode, l: &Level) -> (s: Stream)
    ensures
        s == spec_route(*mode, *l),
{
    match mode {
        TracingWriterMode::Stderr => Stream::Stderr,
        TracingWriterMode::Stdout => Stream::Stdout,
        TracingWriterMode::Stdio => match l {
            Level::Error => Stream::Stderr,
            Level::Warn => Stream::Stderr,
            _ => Stream::Stdout,
        },
    }
}

/// The stream used when no record is at hand to inspect: stderr only under
/// the all-to-stderr mode, stdout otherwise.
pub open spec fn spec_default_route(mode: TracingWriterMode) -> Stream {
    if mode == TracingWriterMode::Stderr {
        Stream::Stderr
    } else {
        Stream::Stdout
    }
}

/// Decide the stream without configuring metadata: the default writer.
pub fn default_route(mode: &TracingWriterMode) -> (s: Stream)
    ensures
        s == spec_default_route(*mode),
{
    if *mode == TracingWriterMode::Stderr {
        Stream::Stderr
    } else {
        Stream::Stdout
    }
}

/// Under the split-by-severity mode, a record goes to stderr exactly when its
/// severity is warn or error; info, debug and trace records go to stdout.
pub proof fn lemma_split_by_severity(l: Level)
    ensures
        spec_route(TracingWriterMode::Stdio, l) == Stream::Stderr <==> (l == Level::Warn || l
            == Level::Error),
        spec_route(TracingWriterMode::Stdio, l) == Stream::Stdout <==> (l == Level::Info || l
            == Level::Debug || l == Level::Trace),
{
}

/// Under a single-stream mode, every severity goes to that one stream.
pub proof fn lemma_single_stream_routing(l: Level)
    ensures
        spec_route(TracingWriterMode::Stdout, l) == Stream::Stdout,
        spec_route(TracingWriterMode::Stderr, l) == Stream::Stderr,
{
}

} // verus!
