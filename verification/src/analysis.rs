//! Per-file classification and project-wide aggregation.

pub mod file;
pub mod project;
