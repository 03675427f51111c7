//! Resolution of verbosity, explicit level and silence into the filter.

use forc_tracing::filter::{
    admits, filter_directives, resolution, resolve_subscriber_config, FilterResolution,
};
use forc_tracing::level::{resolve_level_filter, Level, LevelFilter};
use forc_tracing::options::{TracingSubscriberOptions, TracingWriterMode};

#[test]
fn verbosity_unset_defers_to_env() {
    assert_eq!(resolve_level_filter(None, None), None);
}

#[test]
fn verbosity_zero_defers_to_env() {
    assert_eq!(resolve_level_filter(None, Some(0)), None);
}

#[test]
fn verbosity_one_means_debug() {
    assert_eq!(resolve_level_filter(None, Some(1)), Some(LevelFilter::Debug));
}

#[test]
fn verbosity_two_means_trace() {
    assert_eq!(resolve_level_filter(None, Some(2)), Some(LevelFilter::Trace));
}

#[test]
fn verbosity_three_or_more_means_trace() {
    assert_eq!(resolve_level_filter(None, Some(3)), Some(LevelFilter::Trace));
    assert_eq!(resolve_level_filter(None, Some(255)), Some(LevelFilter::Trace));
}

#[test]
fn explicit_level_wins_over_any_verbosity() {
    for v in [None, Some(0), Some(1), Some(2), Some(7)] {
        assert_eq!(
            resolve_level_filter(Some(LevelFilter::Warn), v),
            Some(LevelFilter::Warn)
        );
        assert_eq!(
            resolve_level_filter(Some(LevelFilter::Off), v),
            Some(LevelFilter::Off)
        );
    }
}

#[test]
fn silent_with_resolved_level_suppresses_everything() {
    let res = resolution(None, Some(1), Some(true));
    assert_eq!(res, FilterResolution::Silenced);
    let expr = filter_directives(&res, &None);
    assert_eq!(expr.as_deref(), Some("off"));
    for l in [
        Level::Error,
        Level::Warn,
        Level::Info,
        Level::Debug,
        Level::Trace,
    ] {
        assert!(!admits(&res, &LevelFilter::Trace, true, &l));
        assert!(!admits(&res, &LevelFilter::Trace, false, &l));
    }
}

#[test]
fn silent_without_resolved_level_defers_to_env() {
    let res = resolution(None, None, Some(true));
    assert_eq!(res, FilterResolution::DeferToEnv);
    assert_eq!(filter_directives(&res, &None), None);
}

#[test]
fn verbosity_one_builds_scoped_debug_expression() {
    let res = resolution(None, Some(1), None);
    assert_eq!(res, FilterResolution::Scoped(LevelFilter::Debug));
    let expr = filter_directives(&res, &None);
    assert_eq!(
        expr.as_deref(),
        Some("info,forc=debug,sway=debug,test=debug")
    );
}

#[test]
fn scoped_expression_keeps_raw_environment_base() {
    let res = resolution(Some(LevelFilter::Trace), None, None);
    let expr = filter_directives(&res, &Some("warn,serde=error".to_string()));
    assert_eq!(
        expr.as_deref(),
        Some("warn,serde=error,forc=trace,sway=trace,test=trace")
    );
}

#[test]
fn scoped_elevation_spares_dependencies() {
    let res = resolution(None, Some(1), None);
    // A toolchain package logging at debug severity is admitted.
    assert!(admits(&res, &LevelFilter::Info, true, &Level::Debug));
    // A non-listed dependency at debug severity is suppressed.
    assert!(!admits(&res, &LevelFilter::Info, false, &Level::Debug));
    // The dependency still logs at the environment's own minimum.
    assert!(admits(&res, &LevelFilter::Info, false, &Level::Info));
}

#[test]
fn no_options_and_no_environment_defer_to_facility_default() {
    let options = TracingSubscriberOptions::default();
    let config = resolve_subscriber_config(options, None);
    assert_eq!(config.directives, None);
    assert!(!config.ansi);
    assert_eq!(config.writer_mode, TracingWriterMode::Stdio);
    assert!(!config.display_time);
    let res = resolution(None, None, None);
    assert_eq!(res, FilterResolution::DeferToEnv);
    // Deferred: every source is held to the environment's minimum, info by default.
    assert!(admits(&res, &LevelFilter::Info, false, &Level::Info));
    assert!(!admits(&res, &LevelFilter::Info, false, &Level::Debug));
}

#[test]
fn config_never_renders_label_file_line_or_target() {
    let noisy = TracingSubscriberOptions {
        verbosity: Some(2),
        silent: None,
        log_level: None,
        writer_mode: Some(TracingWriterMode::Stderr),
        ansi: Some(true),
        display_time: Some(true),
    };
    for options in [TracingSubscriberOptions::default(), noisy] {
        let config = resolve_subscriber_config(options, Some("trace".to_string()));
        assert!(!config.show_level);
        assert!(!config.show_file);
        assert!(!config.show_line_number);
        assert!(!config.show_target);
    }
}

#[test]
fn config_carries_chosen_formatting_options() {
    let options = TracingSubscriberOptions {
        verbosity: None,
        silent: None,
        log_level: Some(LevelFilter::Error),
        writer_mode: Some(TracingWriterMode::Stdout),
        ansi: Some(true),
        display_time: Some(true),
    };
    let config = resolve_subscriber_config(options, None);
    assert_eq!(
        config.directives.as_deref(),
        Some("info,forc=error,sway=error,test=error")
    );
    assert!(config.ansi);
    assert_eq!(config.writer_mode, TracingWriterMode::Stdout);
    assert!(config.display_time);
}

#[test]
fn explicit_off_level_suppresses_without_silent_flag() {
    let res = resolution(Some(LevelFilter::Off), None, Some(false));
    assert_eq!(res, FilterResolution::Scoped(LevelFilter::Off));
    for l in [Level::Error, Level::Info, Level::Trace] {
        assert!(!admits(&res, &LevelFilter::Info, true, &l));
    }
    let expr = filter_directives(&res, &None);
    assert_eq!(expr.as_deref(), Some("info,forc=off,sway=off,test=off"));
}
