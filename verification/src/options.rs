//! The options structure handed to the subscriber configurator, and the
//! output-routing mode it selects.

use vstd::prelude::*;
use crate::level::LevelFilter;

verus! {

/// Where emitted records are written.
#[derive(Clone, Copy, PartialEq, Eq, Structural, Debug)]
pub enum TracingWriterMode {
    /// Write ERROR and WARN to stderr and everything else to stdout.
    Stdio,
    /// Write everything to stdout.
    Stdout,
    /// Write everything to stderr.
    Stderr,
}

/// Options for the subscriber configurator. Every field is optional; absence
/// defers to a default or to the environment.
#[derive(Clone, Copy)]
pub struct TracingSubscriberOptions {
    /// Verbosity count: one step asks for debug, two or more for trace.
    pub verbosity: Option<u8>,
    /// When set, suppress every record that the explicit level or the
    /// verbosity count would otherwise admit.
    pub silent: Option<bool>,
    /// Explicit minimum severity; wins over `verbosity`.
    pub log_level: Option<LevelFilter>,
    /// Output-routing mode; the default splits by severity.
    pub writer_mode: Option<TracingWriterMode>,
    /// Whether color escape sequences may be emitted; off by default.
    pub ansi: Option<bool>,
    /// Whether a timestamp is rendered; off by default.
    pub display_time: Option<bool>,
}

impl Default for TracingSubscriberOptions {
    /// Options with every field absent: everything defers to its default or
    /// to the environment.
    fn default() -> (d: Self)
        ensures
            d.verbosity is None,
            d.silent is None,
            d.log_level is None,
            d.writer_mode is None,
            d.ansi is None,
            d.display_time is None,
    {
        TracingSubscriberOptions {
            verbosity: Option::None,
            silent: Option::None,
            log_level: Option::None,
            writer_mode: Option::None,
            ansi: Option::None,
            display_time: Option::None,
        }
    }
}

/// The value of an optional flag, absent meaning false.
pub open spec fn flag_or_false(o: Option<bool>) -> bool {
    match o {
        Option::Some(b) => b,
        Option::None => false,
    }
}

/// The chosen routing mode, absent meaning split-by-severity.
pub open spec fn mode_or_default(o: Option<TracingWriterMode>) -> TracingWriterMode {
    match o {
        Option::Some(m) => m,
        Option::None => TracingWriterMode::Stdio,
    }
}

} // verus!
