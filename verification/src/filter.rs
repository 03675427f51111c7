//! Resolution of the options structure into the frozen subscriber
//! configuration: the composite minimum-severity filter expression, the
//! output-routing mode, and the formatting switches.

use vstd::prelude::*;
use vstd::string::StringExecFns;
use crate::level::{Level, LevelFilter, filter_admits, spec_resolve_level_filter,
    resolve_level_filter};
use crate::options::{TracingSubscriberOptions, TracingWriterMode, flag_or_false, mode_or_default};

verus! {

/// What the layered options resolve to: either the whole filter is left to
/// the environment expression, or everything is suppressed, or an elevated
/// threshold is scoped to the toolchain's own subsystem-group prefixes while
/// every other source keeps the environment's own minimum.
#[derive(Clone, Copy, PartialEq, Eq, Structural, Debug)]
pub enum FilterResolution {
    /// No explicit level and no verbosity: defer wholly to the environment.
    DeferToEnv,
    /// A minimum severity was resolved and the silence flag is set: suppress
    /// every record.
    Silenced,
    /// A minimum severity was resolved: it applies to the toolchain's own
    /// prefixes, and other sources keep the environment's minimum.
    Scoped(LevelFilter),
}

/// The resolution of the explicit level, the verbosity count and the silence
/// flag, before the environment is consulted.
pub open spec fn spec_resolution(
    log_level: Option<LevelFilter>,
    verbosity: Option<u8>,
    silent: Option<bool>,
) -> FilterResolution {
    match spec_resolve_level_filter(log_level, verbosity) {
        Option::Some(lf) => if flag_or_false(silent) {
            FilterResolution::Silenced
        } else {
            FilterResolution::Scoped(lf)
        },
        Option::None => FilterResolution::DeferToEnv,
    }
}

/// Resolve the explicit level, the verbosity count and the silence flag.
pub fn resolution(
    log_level: Option<LevelFilter>,
    verbosity: Option<u8>,
    silent: Option<bool>,
) -> (r: FilterResolution)
    ensures
        r == spec_resolution(log_level, verbosity, silent),
{
    match resolve_level_filter(log_level, verbosity) {
        Option::Some(lf) => {
            let is_silent = match silent {
                Option::Some(b) => b,
                Option::None => false,
            };
            if is_silent {
                FilterResolution::Silenced
            } else {
                FilterResolution::Scoped(lf)
            }
        },
        Option::None => FilterResolution::DeferToEnv,
    }
}

/// Whether the installed filter admits a record, in the model where the
/// environment contributes the single minimum severity `env_base` (the
/// built-in default being info): a silenced filter admits nothing; a scoped
/// filter holds records from the toolchain's own prefixes to the resolved
/// threshold and every other source to the environment's minimum; a deferred
/// filter holds every source to the environment's minimum.
pub open spec fn spec_admits(
    res: FilterResolution,
    env_base: LevelFilter,
    toolchain_source: bool,
    l: Level,
) -> bool {
    match res {
        FilterResolution::DeferToEnv => filter_admits(env_base, l),
        FilterResolution::Silenced => false,
        FilterResolution::Scoped(lf) => if toolchain_source {
            filter_admits(lf, l)
        } else {
            filter_admits(env_base, l)
        },
    }
}

/// Decide whether a record is admitted under a resolution, with `env_base`
/// the minimum severity the environment contributes and `toolchain_source`
/// saying whether the record comes from one of the toolchain's own prefixes.
pub fn admits(
    res: &FilterResolution,
    env_base: &LevelFilter,
    toolchain_source: bool,
    l: &Level,
) -> (b: bool)
    ensures
        b == spec_admits(*res, *env_base, toolchain_source, *l),
{
    match res {
        FilterResolution::DeferToEnv => crate::level::enables(env_base, l),
        FilterResolution::Silenced => false,
        FilterResolution::Scoped(lf) => if toolchain_source {
            crate::level::enables(lf, l)
        } else {
            crate::level::enables(env_base, l)
        },
    }
}

/// When the silence flag is set and a minimum severity was resolved from the
/// verbosity count or the explicit level, no record of any severity is
/// admitted, from any source and under any environment minimum.
pub proof fn lemma_silence_suppresses_everything(
    log_level: Option<LevelFilter>,
    verbosity: Option<u8>,
    env_base: LevelFilter,
    toolchain_source: bool,
    l: Level,
)
    requires
        spec_resolve_level_filter(log_level, verbosity) is Some,
    ensures
        !spec_admits(
            spec_resolution(log_level, verbosity, Option::Some(true)),
            env_base,
            toolchain_source,
            l,
        ),
{
}

/// Under a scoped resolution, the elevated threshold governs exactly the
/// toolchain's own sources; every other source is held to the environment's
/// minimum, as if no elevation had happened.
pub proof fn lemma_scoped_elevation(
    lf: LevelFilter,
    env_base: LevelFilter,
    l: Level,
)
    ensures
        spec_admits(FilterResolution::Scoped(lf), env_base, true, l) == filter_admits(lf, l),
        spec_admits(FilterResolution::Scoped(lf), env_base, false, l) == filter_admits(
            env_base,
            l,
        ),
        spec_admits(FilterResolution::DeferToEnv, env_base, false, l) == filter_admits(
            env_base,
            l,
        ),
{
}

/// The lowercase directive token of a threshold.
pub open spec fn level_filter_name(f: LevelFilter) -> Seq<char> {
    match f {
        LevelFilter::Off => "off"@,
        LevelFilter::Error => "error"@,
        LevelFilter::Warn => "warn"@,
        LevelFilter::Info => "info"@,
        LevelFilter::Debug => "debug"@,
        LevelFilter::Trace => "trace"@,
    }
}

/// The directive token of a threshold, as the filter grammar writes it.
pub fn level_filter_str(f: &LevelFilter) -> (r: &'static str)
    ensures
        r@ == level_filter_name(*f),
{
    match f {
        LevelFilter::Off => "off",
        LevelFilter::Error => "error",
        LevelFilter::Warn => "warn",
        LevelFilter::Info => "info",
        LevelFilter::Debug => "debug",
        LevelFilter::Trace => "trace",
    }
}

/// The base of the composite expression: the raw environment value when one
/// is present, the built-in info default otherwise.
pub open spec fn spec_env_base(env_filter: Option<Seq<char>>) -> Seq<char> {
    match env_filter {
        Option::Some(e) => e,
        Option::None => "info"@,
    }
}

/// The composite filter expression scoping an elevated threshold to the
/// toolchain's three subsystem-group prefixes: the base expression, then one
/// prefix-scoped directive for each of `forc`, `sway` and `test`.
pub open spec fn spec_scoped_directives(base: Seq<char>, name: Seq<char>) -> Seq<char> {
    base + ",forc="@ + name + ",sway="@ + name + ",test="@ + name
}

/// The filter expression handed to the facility, when the options determine
/// one: nothing when everything defers to the environment, the suppressing
/// expression when silenced, the composite scoped expression otherwise.
pub open spec fn spec_directives(
    res: FilterResolution,
    env_filter: Option<Seq<char>>,
) -> Option<Seq<char>> {
    match res {
        FilterResolution::DeferToEnv => Option::None,
        FilterResolution::Silenced => Option::Some(level_filter_name(LevelFilter::Off)),
        FilterResolution::Scoped(lf) => Option::Some(
            spec_scoped_directives(spec_env_base(env_filter), level_filter_name(lf)),
        ),
    }
}

/// The view of an optional string.
pub open spec fn view_of_opt(s: Option<String>) -> Option<Seq<char>> {
    match s {
        Option::Some(e) => Option::Some(e@),
        Option::None => Option::None,
    }
}

/// Build the filter expression for a resolution, `env_filter` being the raw
/// environment-provided expression if any. `None` means the filter is to be
/// built from the environment alone.
pub fn filter_directives(res: &FilterResolution, env_filter: &Option<String>) -> (r: Option<
    String,
>)
    ensures
        view_of_opt(r) == spec_directives(*res, view_of_opt(*env_filter)),
{
    match res {
        FilterResolution::DeferToEnv => Option::None,
        FilterResolution::Silenced => Option::Some(level_filter_str(&LevelFilter::Off).to_owned()),
        FilterResolution::Scoped(lf) => {
            let name: &'static str = level_filter_str(lf);
            let mut s: String = match env_filter {
                Option::Some(e) => e.clone(),
                Option::None => "info".to_owned(),
            };
            s.append(",forc=");
            s.append(name);
            s.append(",sway=");
            s.append(name);
            s.append(",test=");
            s.append(name);
            Option::Some(s)
        },
    }
}

/// The frozen configuration the host program installs: the filter expression
/// (or none, to defer to the environment), the routing mode, and the
/// formatting switches. The severity label, source file, line number and
/// target are never rendered.
pub struct SubscriberConfig {
    /// Filter expression; absent means build the filter from the environment.
    pub directives: Option<String>,
    /// Whether color escape sequences may be emitted.
    pub ansi: bool,
    /// Output-routing mode.
    pub writer_mode: TracingWriterMode,
    /// Whether a timestamp is rendered before each record.
    pub display_time: bool,
    /// Whether the severity label is rendered: always false.
    pub show_level: bool,
    /// Whether the source file is rendered: always false.
    pub show_file: bool,
    /// Whether the line number is rendered: always false.
    pub show_line_number: bool,
    /// Whether the originating target is rendered: always false.
    pub show_target: bool,
}

/// Resolve the options into the frozen subscriber configuration,
/// `env_filter` being the environment-provided filter expression if any.
/// The options are consumed; the result is what the host program installs,
/// exactly once, as the process-wide sink.
pub fn resolve_subscriber_config(
    options: TracingSubscriberOptions,
    env_filter: Option<String>,
) -> (c: SubscriberConfig)
    ensures
        view_of_opt(c.directives) == spec_directives(
            spec_resolution(options.log_level, options.verbosity, options.silent),
            view_of_opt(env_filter),
        ),
        c.ansi == flag_or_false(options.ansi),
        c.writer_mode == mode_or_default(options.writer_mode),
        c.display_time == flag_or_false(options.display_time),
        !c.show_level && !c.show_file && !c.show_line_number && !c.show_target,
{
    let res = resolution(options.log_level, options.verbosity, options.silent);
    let directives = filter_directives(&res, &env_filter);
    let ansi = match options.ansi {
        Option::Some(b) => b,
        Option::None => false,
    };
    let writer_mode = match options.writer_mode {
        Option::Some(m) => m,
        Option::None => TracingWriterMode::Stdio,
    };
    let display_time = match options.display_time {
        Option::Some(b) => b,
        Option::None => false,
    };
    SubscriberConfig {
        directives,
        ansi,
        writer_mode,
        display_time,
        show_level: false,
        show_file: false,
        show_line_number: false,
        show_target: false,
    }
}

} // verus!
