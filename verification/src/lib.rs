//! Process-wide console logging configuration for a command-line toolchain:
//! colored status rendering and a log-record sink configuration that routes
//! records by severity to standard output or standard error.
//!
//! The crate resolves a small options structure into a frozen configuration:
//! a minimum-severity filter expression (layering an explicit level, a
//! verbosity count, a silence flag and an environment fallback), an output
//! routing policy, and formatting switches. Installing the resolved
//! configuration as the global sink is left to the host program.

pub mod filter;
pub mod level;
pub mod options;
pub mod paint;
pub mod routing;
