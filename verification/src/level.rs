//! Record severities, minimum-severity thresholds, and the resolution of a
//! threshold from an explicit level and a verbosity count.

use vstd::prelude::*;

verus! {

/// Severity of a single log record. The order of importance is
/// trace < debug < info < warn < error.
#[derive(Clone, Copy, PartialEq, Eq, Structural, Debug)]
pub enum Level {
    Error,
    Warn,
    Info,
    Debug,
    Trace,
}

/// A minimum-severity threshold: a filter set to `f` admits exactly the
/// records whose severity is `f` or more severe, and `Off` admits nothing.
#[derive(Clone, Copy, PartialEq, Eq, Structural, Debug)]
pub enum LevelFilter {
    Off,
    Error,
    Warn,
    Info,
    Debug,
    Trace,
}

/// Position of a severity in the importance order: trace is 0 (least severe),
/// error is 4 (most severe).
pub open spec fn level_severity(l: Level) -> int {
    match l {
        Level::Trace => 0,
        Level::Debug => 1,
        Level::Info => 2,
        Level::Warn => 3,
        Level::Error => 4,
    }
}

/// How permissive a threshold is: `Off` admits nothing, `Trace` admits
/// everything. A record passes when its verbosity rank does not exceed this.
pub open spec fn filter_permissiveness(f: LevelFilter) -> int {
    match f {
        LevelFilter::Off => -1,
        LevelFilter::Error => 0,
        LevelFilter::Warn => 1,
        LevelFilter::Info => 2,
        LevelFilter::Debug => 3,
        LevelFilter::Trace => 4,
    }
}

/// Whether a filter set to threshold `f` admits a record of severity `l`.
pub open spec fn filter_admits(f: LevelFilter, l: Level) -> bool {
    4 - level_severity(l) <= filter_permissiveness(f)
}

/// Runtime test of `filter_admits`.
pub fn enables(f: &LevelFilter, l: &Level) -> (b: bool)
    ensures
        b == filter_admits(*f, *l),
{
    let lv: i32 = match l {
        Level::Trace => 4,
        Level::Debug => 3,
        Level::Info => 2,
        Level::Warn => 1,
        Level::Error => 0,
    };
    let fp: i32 = match f {
        LevelFilter::Off => -1,
        LevelFilter::Error => 0,
        LevelFilter::Warn => 1,
        LevelFilter::Info => 2,
        LevelFilter::Debug => 3,
        LevelFilter::Trace => 4,
    };
    lv <= fp
}

/// The minimum severity resolved from an explicit level and a verbosity
/// count: an explicit level always wins; otherwise one verbosity step means
/// debug, two or more mean trace, and zero (or no count) leaves the choice
/// to the environment.
pub open spec fn spec_resolve_level_filter(
    log_level: Option<LevelFilter>,
    verbosity: Option<u8>,
) -> Option<LevelFilter> {
    match log_level {
        Option::Some(lf) => Option::Some(lf),
        Option::None => match verbosity {
            Option::Some(v) => if v == 1 {
                Option::Some(LevelFilter::Debug)
            } else if v >= 2 {
                Option::Some(LevelFilter::Trace)
            } else {
                Option::None
            },
            Option::None => Option::None,
        },
    }
}

/// Resolve the minimum severity from the optional explicit level and the
/// optional verbosity count.
pub fn resolve_level_filter(log_level: Option<LevelFilter>, verbosity: Option<u8>) -> (r: Option<
    LevelFilter,
>)
    ensures
        r == spec_resolve_level_filter(log_level, verbosity),
{
    match log_level {
        Option::Some(lf) => Option::Some(lf),
        Option::None => match verbosity {
            Option::Some(v) => if v == 1 {
                Option::Some(LevelFilter::Debug)
            } else if v >= 2 {
                Option::Some(LevelFilter::Trace)
            } else {
                Option::None
            },
            Option::None => Option::None,
        },
    }
}

/// For every verbosity count: no count and a count of zero defer to the
/// environment, one resolves to debug, and two or more resolve to trace.
pub proof fn lemma_verbosity_resolution(verbosity: Option<u8>)
    ensures
        spec_resolve_level_filter(Option::None, Option::None) is None,
        spec_resolve_level_filter(Option::None, Option::Some(0)) is None,
        spec_resolve_level_filter(Option::None, Option::Some(1)) == Option::Some(
            LevelFilter::Debug,
        ),
        (verbosity matches Option::Some(v) && v >= 2) ==> spec_resolve_level_filter(
            Option::None,
            verbosity,
        ) == Option::Some(LevelFilter::Trace),
{
}

/// An explicit minimum severity always wins over the verbosity count,
/// whatever that count is.
pub proof fn lemma_explicit_level_wins(lf: LevelFilter, verbosity: Option<u8>)
    ensures
        spec_resolve_level_filter(Option::Some(lf), verbosity) == Option::Some(lf),
{
}

} // verus!
