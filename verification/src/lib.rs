//! Line-based source-code metrics for Noir (Nargo) projects.
//!
//! The library scans the lines of `.nr` source files with a small
//! state machine, producing per-file counters ([`FileMetrics`]) and
//! folding them into project-wide totals ([`ProjectTotals`]).  All of
//! the classification and aggregation logic is verified; reading files
//! from disk and printing reports is left to the surrounding binary.

mod analysis;
mod cli;
mod project;
mod text;

pub use crate::analysis::file::{analyze_lines, count_braces, is_test_file, FileMetrics};
pub use crate::analysis::project::{build_report, compute_totals, MetricsReport, ProjectTotals};
pub use crate::cli::{Cli, CliError, OutputFormat};
pub use crate::project::{is_nr_file, nr_files_sorted, Project, ProjectError};
pub use crate::text::line_has_todo;
