//! A line-oriented pattern scanner: literal or regular-expression matching,
//! optional substitution, an inclusive line window and output formatting.
//!
//! A [`Config`] is assembled once and then shared read-only by every scan.
//! A [`FileScanner`] takes one file's lines in order and yields an outcome
//! for each line in the window; the outcomes render to output lines through
//! [`Matched`]. What lies around the scans (the targets, the worker pool,
//! the run's outcome) is decided in [`run`].
pub mod config;
pub mod output;
pub mod pattern;
pub mod run;
pub mod scan;
pub mod strategy;
pub mod text;
pub mod window;

pub use config::{Config, ConfigError};
pub use output::{Matched, PrintableWithFileNameLineNumber};
pub use run::{pool_size, FileEnd, RunError, RunSummary, Target};
pub use scan::{scan_lines, FileScanner};
pub use strategy::{
    replace_regex_by_line, search, search_case_insensitive, search_regex_by_line, MatchedLine,
    Strategy,
};
pub use window::in_window;
